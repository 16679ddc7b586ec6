//! Concatenation of per-item text fragments over a sequence, and the lemmas
//! that relate a fragment concatenation to its parts.

use vstd::prelude::*;

verus! {

/// The concatenation, in order, of the fragment `f(x)` of every item `x` of `s`.
pub open spec fn concat_map<T>(s: Seq<T>, f: spec_fn(T) -> Seq<char>) -> Seq<char>
    decreases s.len(),
{
    if s.len() == 0 {
        Seq::empty()
    } else {
        f(s[0]) + concat_map(s.drop_first(), f)
    }
}

pub proof fn lemma_concat_map_append<T>(a: Seq<T>, b: Seq<T>, f: spec_fn(T) -> Seq<char>)
    ensures
        concat_map(a + b, f) == concat_map(a, f) + concat_map(b, f),
    decreases a.len(),
{
    if a.len() == 0 {
        assert(a + b =~= b);
        assert(concat_map(a, f) + concat_map(b, f) =~= concat_map(b, f));
    } else {
        lemma_concat_map_append(a.drop_first(), b, f);
        assert((a + b).drop_first() =~= a.drop_first() + b);
        assert((a + b)[0] == a[0]);
        assert(concat_map(a + b, f) =~= concat_map(a, f) + concat_map(b, f));
    }
}

pub proof fn lemma_concat_map_singleton<T>(x: T, f: spec_fn(T) -> Seq<char>)
    ensures
        concat_map(seq![x], f) == f(x),
{
    assert(seq![x].drop_first() =~= Seq::<T>::empty());
    assert(concat_map(Seq::<T>::empty(), f) == Seq::<char>::empty());
    assert(concat_map(seq![x], f) =~= f(x));
}

/// Extending the prefix of emitted items by one appends exactly that item's fragment.
pub proof fn lemma_concat_map_take_succ<T>(s: Seq<T>, f: spec_fn(T) -> Seq<char>, i: int)
    requires
        0 <= i < s.len(),
    ensures
        concat_map(s.take(i + 1), f) == concat_map(s.take(i), f) + f(s[i]),
{
    assert(s.take(i + 1) =~= s.take(i) + seq![s[i]]);
    lemma_concat_map_append(s.take(i), seq![s[i]], f);
    lemma_concat_map_singleton(s[i], f);
}

pub proof fn lemma_concat_map_take_full<T>(s: Seq<T>, f: spec_fn(T) -> Seq<char>)
    ensures
        concat_map(s.take(s.len() as int), f) == concat_map(s, f),
{
    assert(s.take(s.len() as int) =~= s);
}

/// The fragment of item `i` stands exactly between the fragments of the items
/// before it and the fragments of the items after it.
pub proof fn lemma_concat_map_split<T>(s: Seq<T>, f: spec_fn(T) -> Seq<char>, i: int)
    requires
        0 <= i < s.len(),
    ensures
        concat_map(s, f) == concat_map(s.take(i), f) + f(s[i]) + concat_map(s.skip(i + 1), f),
{
    assert(s =~= (s.take(i) + seq![s[i]]) + s.skip(i + 1));
    lemma_concat_map_append(s.take(i) + seq![s[i]], s.skip(i + 1), f);
    lemma_concat_map_append(s.take(i), seq![s[i]], f);
    lemma_concat_map_singleton(s[i], f);
    assert(concat_map(s, f) =~= concat_map(s.take(i), f) + f(s[i]) + concat_map(s.skip(i + 1), f));
}

} // verus!
