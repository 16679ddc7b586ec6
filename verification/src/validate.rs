//! Validation of a raw specification: identifier syntax, the type whitelist,
//! whitespace-freedom of long names and aliases, and the one-character rule on
//! short names.  `Spec::new` either yields a validated `Spec` that models the
//! raw input exactly, or the first violation in scan order.

use vstd::prelude::*;

verus! {

use crate::model::CType;
use crate::model::NPItem;
use crate::model::PItem;
use crate::model::RawNPItem;
use crate::model::RawPItem;
use crate::model::Spec;
use crate::model::ValidationError;
use crate::model::ValidationErrorV;
use crate::model::first_alias_error;
use crate::model::first_item_error;
use crate::model::has_space;
use crate::model::is_ident_char;
use crate::model::is_ident_start_char;
use crate::model::is_identifier;
use crate::model::lemma_first_alias_error_at;
use crate::model::lemma_first_alias_error_none;
use crate::model::lemma_first_error_none;
use crate::model::lemma_first_item_error_at;
use crate::model::lemma_first_item_error_none;
use crate::model::lemma_np_item_error_none;
use crate::model::lemma_p_item_error_none;
use crate::model::np_error_fn;
use crate::model::np_item_error;
use crate::model::np_item_valid;
use crate::model::p_error_fn;
use crate::model::p_item_error;
use crate::model::p_item_valid;
use crate::model::spec_all_valid;
use crate::model::spec_first_error;
use crate::model::spec_parse_ctype;

/// The view of an optional string.
pub open spec fn opt_str_view(o: Option<String>) -> Option<Seq<char>> {
    match o {
        Some(s) => Some(s@),
        None => None,
    }
}

/// The views of a sequence of strings, in order.
pub open spec fn str_views(s: Seq<String>) -> Seq<Seq<char>> {
    s.map_values(|a: String| a@)
}

/// A validated positional argument models a raw one when it carries the same
/// variable name and help text, and the type the raw type name denotes.
pub open spec fn p_item_models(it: PItem, raw: RawPItem) -> bool {
    &&& it.c_var@ == raw.c_var@
    &&& Some(it.c_type) == spec_parse_ctype(raw.c_type@)
    &&& opt_str_view(it.help) == opt_str_view(raw.help)
}

/// A validated named argument models a raw one field for field; an absent
/// alias list becomes the empty one, and an absent required flag becomes false.
pub open spec fn np_item_models(it: NPItem, raw: RawNPItem) -> bool {
    &&& it.c_var@ == raw.c_var@
    &&& Some(it.c_type) == spec_parse_ctype(raw.c_type@)
    &&& it.name@ == raw.name@
    &&& opt_str_view(it.short) == opt_str_view(raw.short)
    &&& str_views(it.aliases@) == (match raw.aliases {
        Some(v) => str_views(v@),
        None => Seq::<Seq<char>>::empty(),
    })
    &&& opt_str_view(it.help) == opt_str_view(raw.help)
    &&& it.required == (raw.required == Some(true))
    &&& opt_str_view(it.default) == opt_str_view(raw.default)
}

/// A validated `Spec` models the raw input lists item for item, in order.
pub open spec fn spec_models(s: Spec, p: Seq<RawPItem>, np: Seq<RawNPItem>) -> bool {
    &&& s.positional@.len() == p.len()
    &&& forall|i: int| 0 <= i < p.len() ==> p_item_models(#[trigger] s.positional@[i], p[i])
    &&& s.non_positional@.len() == np.len()
    &&& forall|i: int|
        0 <= i < np.len() ==> np_item_models(#[trigger] s.non_positional@[i], np[i])
}

/// The invariant a validated positional argument keeps.
pub open spec fn p_wf(p: PItem) -> bool {
    is_identifier(p.c_var@)
}

/// The invariant a validated named argument keeps.
pub open spec fn np_wf(n: NPItem) -> bool {
    &&& is_identifier(n.c_var@)
    &&& !has_space(n.name@)
    &&& (n.short matches Some(s) ==> s@.len() == 1)
    &&& forall|i: int| 0 <= i < n.aliases@.len() ==> !has_space(#[trigger] n.aliases@[i]@)
}

impl Spec {
    /// The specification invariant: every argument it holds passes its own rules.
    pub open spec fn wf(self) -> bool {
        &&& forall|i: int| 0 <= i < self.positional@.len() ==> p_wf(#[trigger] self.positional@[i])
        &&& forall|i: int|
            0 <= i < self.non_positional@.len() ==> np_wf(#[trigger] self.non_positional@[i])
    }
}

fn is_ident_start_exec(c: char) -> (b: bool)
    ensures
        b == is_ident_start_char(c),
{
    c == '_' || ('a' <= c && c <= 'z') || ('A' <= c && c <= 'Z')
}

fn is_ident_char_exec(c: char) -> (b: bool)
    ensures
        b == is_ident_char(c),
{
    is_ident_start_exec(c) || ('0' <= c && c <= '9')
}

/// Whether `s` matches the fixed identifier rule: an underscore or letter,
/// then underscores, letters and digits.
pub fn check_identifier(s: &str) -> (b: bool)
    ensures
        b == is_identifier(s@),
{
    let len = s.unicode_len();
    if len == 0 {
        return false;
    }
    if !is_ident_start_exec(s.get_char(0)) {
        return false;
    }
    let mut i: usize = 1;
    while i < len
        invariant
            1 <= i <= len,
            len == s@.len(),
            is_ident_start_char(s@[0]),
            forall|j: int| 1 <= j < i ==> #[trigger] is_ident_char(s@[j]),
        decreases len - i,
    {
        if !is_ident_char_exec(s.get_char(i)) {
            return false;
        }
        i += 1;
    }
    true
}

/// Whether `s` holds a space character.
pub fn contains_space(s: &str) -> (b: bool)
    ensures
        b == has_space(s@),
{
    let len = s.unicode_len();
    let mut i: usize = 0;
    while i < len
        invariant
            i <= len,
            len == s@.len(),
            forall|j: int| 0 <= j < i ==> s@[j] != ' ',
        decreases len - i,
    {
        if s.get_char(i) == ' ' {
            return true;
        }
        i += 1;
    }
    false
}

/// Character-for-character string equality.
fn str_equal(a: &str, b: &str) -> (r: bool)
    ensures
        r == (a@ == b@),
{
    let alen = a.unicode_len();
    let blen = b.unicode_len();
    if alen != blen {
        return false;
    }
    let mut i: usize = 0;
    while i < alen
        invariant
            i <= alen,
            alen == a@.len(),
            alen == b@.len(),
            forall|j: int| 0 <= j < i ==> a@[j] == b@[j],
        decreases alen - i,
    {
        if a.get_char(i) != b.get_char(i) {
            return false;
        }
        i += 1;
    }
    proof {
        assert(a@ =~= b@);
    }
    true
}

/// The whitelist membership test on a raw type name.
pub fn parse_ctype(s: &str) -> (r: Option<CType>)
    ensures
        r == spec_parse_ctype(s@),
{
    if str_equal(s, "char") {
        Some(CType::Char)
    } else if str_equal(s, "char*") {
        Some(CType::CharPtr)
    } else if str_equal(s, "int32") {
        Some(CType::Int32)
    } else {
        None
    }
}

fn clone_opt_string(o: &Option<String>) -> (r: Option<String>)
    ensures
        r == *o,
{
    match o {
        Some(s) => Some(s.clone()),
        None => None,
    }
}

fn clone_string_vec(v: &Vec<String>) -> (r: Vec<String>)
    ensures
        r@ == v@,
{
    let mut out: Vec<String> = Vec::new();
    let mut i: usize = 0;
    while i < v.len()
        invariant
            i <= v@.len(),
            out@ == v@.take(i as int),
        decreases v@.len() - i,
    {
        out.push(v[i].clone());
        proof {
            assert(v@.take(i + 1 as int) =~= v@.take(i as int).push(v@[i as int]));
        }
        i += 1;
    }
    proof {
        assert(v@.take(v@.len() as int) =~= v@);
    }
    out
}

/// Validates one raw positional argument and converts it, or reports its
/// first violation.
fn convert_p(p: &RawPItem) -> (r: Result<PItem, ValidationError>)
    ensures
        r is Ok <==> p_item_error(*p) is None,
        r matches Ok(it) ==> p_item_models(it, *p),
        r matches Err(e) ==> Some(e@) == p_item_error(*p),
{
    if !check_identifier(p.c_var.as_str()) {
        return Err(ValidationError::InvalidCVar(p.c_var.clone()));
    }
    let ct = match parse_ctype(p.c_type.as_str()) {
        Some(t) => t,
        None => {
            return Err(ValidationError::InvalidCType(p.c_type.clone()));
        },
    };
    Ok(PItem { c_var: p.c_var.clone(), c_type: ct, help: clone_opt_string(&p.help) })
}

/// Validates one raw named argument and converts it, or reports its first
/// violation in field order: variable, type, long name, short name, aliases.
#[verifier::loop_isolation(false)]
fn convert_np(n: &RawNPItem) -> (r: Result<NPItem, ValidationError>)
    ensures
        r is Ok <==> np_item_error(*n) is None,
        r matches Ok(it) ==> np_item_models(it, *n),
        r matches Err(e) ==> Some(e@) == np_item_error(*n),
{
    if !check_identifier(n.c_var.as_str()) {
        return Err(ValidationError::InvalidCVar(n.c_var.clone()));
    }
    let ct = match parse_ctype(n.c_type.as_str()) {
        Some(t) => t,
        None => {
            return Err(ValidationError::InvalidCType(n.c_type.clone()));
        },
    };
    if contains_space(n.name.as_str()) {
        return Err(ValidationError::InvalidName(n.name.clone()));
    }
    match &n.short {
        Some(s) => {
            if s.unicode_len() != 1 {
                return Err(ValidationError::InvalidShort(s.clone()));
            }
        },
        None => {},
    }
    let alias_vec: Vec<String> = match &n.aliases {
        Some(al) => {
            let mut i: usize = 0;
            while i < al.len()
                invariant
                    i <= al@.len(),
                    forall|j: int| 0 <= j < i ==> !has_space(#[trigger] al@[j]@),
                decreases al@.len() - i,
            {
                if contains_space(al[i].as_str()) {
                    proof {
                        lemma_first_alias_error_at(al@, i as int);
                    }
                    return Err(ValidationError::InvalidAlias(al[i].clone()));
                }
                i += 1;
            }
            clone_string_vec(al)
        },
        None => Vec::new(),
    };
    proof {
        match &n.aliases {
            Some(al) => {
                lemma_first_alias_error_none(al@);
            },
            None => {
                assert(str_views(alias_vec@) =~= Seq::<Seq<char>>::empty());
            },
        }
    }
    Ok(
        NPItem {
            c_var: n.c_var.clone(),
            c_type: ct,
            name: n.name.clone(),
            short: clone_opt_string(&n.short),
            aliases: alias_vec,
            help: clone_opt_string(&n.help),
            required: match n.required {
                Some(b) => b,
                None => false,
            },
            default: clone_opt_string(&n.default),
        },
    )
}

/// A validated `Spec` that models valid raw input keeps the invariant.
proof fn lemma_models_wf(s: Spec, p: Seq<RawPItem>, np: Seq<RawNPItem>)
    requires
        spec_models(s, p, np),
        spec_all_valid(p, np),
    ensures
        s.wf(),
{
    assert forall|i: int| 0 <= i < s.positional@.len() implies p_wf(
        #[trigger] s.positional@[i],
    ) by {
        assert(p_item_models(s.positional@[i], p[i]));
        assert(p_item_valid(p[i]));
    }
    assert forall|i: int| 0 <= i < s.non_positional@.len() implies np_wf(
        #[trigger] s.non_positional@[i],
    ) by {
        let it = s.non_positional@[i];
        let raw = np[i];
        assert(np_item_models(it, raw));
        assert(np_item_valid(raw));
        match raw.aliases {
            Some(al) => {
                assert(str_views(it.aliases@) == str_views(al@));
                assert(str_views(it.aliases@).len() == it.aliases@.len());
                assert(str_views(al@).len() == al@.len());
                assert forall|j: int| 0 <= j < it.aliases@.len() implies !has_space(
                    #[trigger] it.aliases@[j]@,
                ) by {
                    assert(str_views(it.aliases@)[j] == it.aliases@[j]@);
                    assert(0 <= j < al@.len());
                    assert(str_views(al@)[j] == al@[j]@);
                }
            },
            None => {
                assert(str_views(it.aliases@).len() == 0);
            },
        }
    }
}

impl Spec {
    /// Builds a validated specification from the raw input lists, rejecting
    /// the whole input on the first violation in scan order: every positional
    /// argument in order, then every named argument in order.
    #[verifier::loop_isolation(false)]
    pub fn new(positional: &Vec<RawPItem>, non_positional: &Vec<RawNPItem>) -> (r: Result<
        Spec,
        ValidationError,
    >)
        ensures
            r is Ok <==> spec_all_valid(positional@, non_positional@),
            r matches Ok(s) ==> spec_models(s, positional@, non_positional@) && s.wf(),
            r matches Err(e) ==> Some(e@) == spec_first_error(positional@, non_positional@),
    {
        let mut out_p: Vec<PItem> = Vec::new();
        let mut i: usize = 0;
        while i < positional.len()
            invariant
                i <= positional@.len(),
                out_p@.len() == i,
                forall|j: int| 0 <= j < i ==> p_item_error(#[trigger] positional@[j]) is None,
                forall|j: int|
                    0 <= j < i ==> p_item_models(#[trigger] out_p@[j], positional@[j]),
            decreases positional@.len() - i,
        {
            match convert_p(&positional[i]) {
                Ok(it) => {
                    out_p.push(it);
                },
                Err(e) => {
                    proof {
                        assert forall|j: int| 0 <= j < i implies p_error_fn()(
                            #[trigger] positional@[j],
                        ) is None by {}
                        lemma_first_item_error_at(positional@, p_error_fn(), i as int);
                        lemma_first_error_none(positional@, non_positional@);
                    }
                    return Err(e);
                },
            }
            i += 1;
        }
        let mut out_np: Vec<NPItem> = Vec::new();
        let mut k: usize = 0;
        while k < non_positional.len()
            invariant
                k <= non_positional@.len(),
                out_np@.len() == k,
                forall|j: int| 0 <= j < k ==> np_item_error(#[trigger] non_positional@[j]) is None,
                forall|j: int|
                    0 <= j < k ==> np_item_models(#[trigger] out_np@[j], non_positional@[j]),
            decreases non_positional@.len() - k,
        {
            match convert_np(&non_positional[k]) {
                Ok(it) => {
                    out_np.push(it);
                },
                Err(e) => {
                    proof {
                        assert forall|j: int| 0 <= j < non_positional@.len() && j < k implies np_error_fn()(
                            #[trigger] non_positional@[j],
                        ) is None by {}
                        lemma_first_item_error_at(non_positional@, np_error_fn(), k as int);
                        assert forall|j: int| 0 <= j < positional@.len() implies p_error_fn()(
                            #[trigger] positional@[j],
                        ) is None by {}
                        lemma_first_item_error_none(positional@, p_error_fn());
                        lemma_first_error_none(positional@, non_positional@);
                    }
                    return Err(e);
                },
            }
            k += 1;
        }
        let s = Spec { positional: out_p, non_positional: out_np };
        proof {
            assert forall|j: int| 0 <= j < positional@.len() implies p_item_valid(
                #[trigger] positional@[j],
            ) by {
                lemma_p_item_error_none(positional@[j]);
            }
            assert forall|j: int| 0 <= j < non_positional@.len() implies np_item_valid(
                #[trigger] non_positional@[j],
            ) by {
                lemma_np_item_error_none(non_positional@[j]);
            }
            lemma_models_wf(s, positional@, non_positional@);
        }
        Ok(s)
    }
}

impl ValidationError {
    /// A human-readable description naming the offending field and its value.
    pub fn describe(&self) -> (r: String)
        ensures
            r@ == crate::model::spec_describe(self@),
    {
        let mut out = String::new();
        match self {
            ValidationError::InvalidCVar(v) => {
                out.append("invalid c variable \"");
                out.append(v.as_str());
                out.append("\"");
            },
            ValidationError::InvalidCType(v) => {
                out.append("invalid c type: \"");
                out.append(v.as_str());
                out.append("\"");
            },
            ValidationError::InvalidName(v) => {
                out.append("invalid argument name: \"");
                out.append(v.as_str());
                out.append("\"");
            },
            ValidationError::InvalidShort(v) => {
                out.append("invalid short name: \"");
                out.append(v.as_str());
                out.append("\"");
            },
            ValidationError::InvalidAlias(v) => {
                out.append("invalid argument alias name: \"");
                out.append(v.as_str());
                out.append("\"");
            },
        }
        proof {
            assert(out@ =~= crate::model::spec_describe(self@));
        }
        out
    }
}

} // verus!
