//! The library's general laws, stated over the same spec functions that the
//! executable functions' contracts use, and proved once for all inputs.

use vstd::prelude::*;

verus! {

use crate::emit::np_decl_main_fn;
use crate::emit::np_usage_line_fn;
use crate::emit::p_decl_fn;
use crate::emit::spec_decl_main;
use crate::emit::spec_gen;
use crate::emit::spec_p_decl;
use crate::emit::spec_post_loop;
use crate::emit::spec_usage_line;
use crate::model::NPItem;
use crate::model::PItem;
use crate::model::RawNPItem;
use crate::model::RawPItem;
use crate::model::Spec;
use crate::model::is_identifier;
use crate::model::np_item_valid;
use crate::model::p_item_valid;
use crate::model::spec_all_valid;
use crate::seqtext::concat_map;
use crate::seqtext::lemma_concat_map_split;

/// Determinism: the generated text is a function of the specification's
/// argument lists alone, so two generation results for equal lists are
/// byte-identical.  `Spec::gen` ensures its result is exactly `spec_gen`.
pub proof fn lemma_generation_deterministic(
    a: Spec,
    b: Spec,
    out_a: Seq<char>,
    out_b: Seq<char>,
)
    requires
        a.positional@ == b.positional@,
        a.non_positional@ == b.non_positional@,
        out_a == spec_gen(a.positional@, a.non_positional@),
        out_b == spec_gen(b.positional@, b.non_positional@),
    ensures
        out_a == out_b,
{
}

/// Order preservation, entry-point declarations of positional arguments: the
/// declaration of argument `i` stands exactly between the declarations of the
/// arguments before it and those after it, in input order.
pub proof fn lemma_p_declaration_order(p: Seq<PItem>, i: int)
    requires
        0 <= i < p.len(),
    ensures
        concat_map(p, p_decl_fn()) == concat_map(p.take(i), p_decl_fn()) + spec_p_decl(p[i])
            + concat_map(p.skip(i + 1), p_decl_fn()),
{
    lemma_concat_map_split(p, p_decl_fn(), i);
    assert(p_decl_fn()(p[i]) == spec_p_decl(p[i]));
}

/// Order preservation, entry-point declarations of named arguments.
pub proof fn lemma_np_declaration_order(np: Seq<NPItem>, i: int)
    requires
        0 <= i < np.len(),
    ensures
        concat_map(np, np_decl_main_fn()) == concat_map(np.take(i), np_decl_main_fn())
            + spec_decl_main(np[i]) + concat_map(np.skip(i + 1), np_decl_main_fn()),
{
    lemma_concat_map_split(np, np_decl_main_fn(), i);
    assert(np_decl_main_fn()(np[i]) == spec_decl_main(np[i]));
}

/// Order preservation, usage lines: the usage line of named argument `i`
/// stands exactly between the lines of the arguments before and after it.
pub proof fn lemma_usage_line_order(np: Seq<NPItem>, i: int)
    requires
        0 <= i < np.len(),
    ensures
        concat_map(np, np_usage_line_fn()) == concat_map(np.take(i), np_usage_line_fn())
            + spec_usage_line(np[i]) + concat_map(np.skip(i + 1), np_usage_line_fn()),
{
    lemma_concat_map_split(np, np_usage_line_fn(), i);
    assert(np_usage_line_fn()(np[i]) == spec_usage_line(np[i]));
}

/// Validation totality: one argument whose variable name fails the identifier
/// rule makes the whole raw specification invalid; `Spec::new` then returns
/// the validation failure and no output text is ever produced from it.
pub proof fn lemma_invalid_identifier_rejected(p: Seq<RawPItem>, np: Seq<RawNPItem>, i: int)
    requires
        (0 <= i < p.len() && !is_identifier(p[i].c_var@)) || (0 <= i < np.len()
            && !is_identifier(np[i].c_var@)),
    ensures
        !spec_all_valid(p, np),
{
    if 0 <= i < p.len() && !is_identifier(p[i].c_var@) {
        assert(!p_item_valid(p[i]));
    } else {
        assert(!np_item_valid(np[i]));
    }
}

/// Type whitelist enforcement: one argument whose type name is none of
/// `char`, `char*`, `int32` makes the whole raw specification invalid, so
/// `Spec::new` rejects it.
pub proof fn lemma_unlisted_type_rejected(p: Seq<RawPItem>, np: Seq<RawNPItem>, i: int)
    requires
        (0 <= i < p.len() && p[i].c_type@ != "char"@ && p[i].c_type@ != "char*"@
            && p[i].c_type@ != "int32"@) || (0 <= i < np.len() && np[i].c_type@ != "char"@
            && np[i].c_type@ != "char*"@ && np[i].c_type@ != "int32"@),
    ensures
        !spec_all_valid(p, np),
{
    if 0 <= i < p.len() && p[i].c_type@ != "char"@ && p[i].c_type@ != "char*"@ && p[i].c_type@
        != "int32"@ {
        assert(!p_item_valid(p[i]));
    } else {
        assert(!np_item_valid(np[i]));
    }
}

/// Required-vs-default precedence: the post-loop fragment of a required
/// argument is the required check that prints usage and exits nonzero, and it
/// does not depend on the default value, which is never applied.
pub proof fn lemma_required_overrides_default(n: NPItem, d: Option<String>)
    requires
        n.required,
    ensures
        spec_post_loop(n) == "\tif (!"@ + n.c_var@ + "__isset) {\n"@ + "\t\tusage(argv[0]);\n"@
            + "\t\texit(1);\n"@ + "\t}\n"@,
        spec_post_loop(n) == spec_post_loop(NPItem { default: d, ..n }),
{
}

} // verus!
