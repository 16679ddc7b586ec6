//! The data model of an argument specification: the closed type whitelist,
//! positional and named arguments, the raw (unvalidated) input form, and the
//! validity rules that separate the two.

use vstd::prelude::*;

verus! {

/// The closed whitelist of target-language data types an argument may have.
#[derive(Clone, Copy, PartialEq, Eq, Structural, Debug)]
pub enum CType {
    /// A single character (`char`).
    Char,
    /// A character pointer / string (`char*`).
    CharPtr,
    /// A 32-bit integer (`int32`).
    Int32,
}

/// One argument bound by its position in the token stream.
#[derive(Debug, Clone)]
pub struct PItem {
    pub c_var: String,
    pub c_type: CType,
    pub help: Option<String>,
}

/// One argument bound by a `--longname` token, optionally with a one-character
/// short form, aliases, a help text, a required flag and a default value.
#[derive(Debug, Clone)]
pub struct NPItem {
    pub c_var: String,
    pub c_type: CType,
    pub name: String,
    pub short: Option<String>,
    pub aliases: Vec<String>,
    pub help: Option<String>,
    pub required: bool,
    pub default: Option<String>,
}

/// A validated argument specification: the ordered positional arguments and
/// the ordered named arguments.
pub struct Spec {
    pub positional: Vec<PItem>,
    pub non_positional: Vec<NPItem>,
}

/// A positional argument as it stands in the input document, before validation.
#[derive(Debug, Clone)]
pub struct RawPItem {
    pub c_var: String,
    pub c_type: String,
    pub help: Option<String>,
}

/// A named argument as it stands in the input document, before validation.
#[derive(Debug, Clone)]
pub struct RawNPItem {
    pub c_var: String,
    pub c_type: String,
    pub name: String,
    pub short: Option<String>,
    pub aliases: Option<Vec<String>>,
    pub help: Option<String>,
    pub required: Option<bool>,
    pub default: Option<String>,
}

/// The reasons a raw specification is rejected, each carrying the offending value.
#[derive(Debug, Clone, PartialEq, Eq)]
pub enum ValidationError {
    InvalidCVar(String),
    InvalidCType(String),
    InvalidName(String),
    InvalidShort(String),
    InvalidAlias(String),
}

/// The mathematical image of a `ValidationError`.
pub enum ValidationErrorV {
    InvalidCVar(Seq<char>),
    InvalidCType(Seq<char>),
    InvalidName(Seq<char>),
    InvalidShort(Seq<char>),
    InvalidAlias(Seq<char>),
}

impl View for ValidationError {
    type V = ValidationErrorV;

    open spec fn view(&self) -> ValidationErrorV {
        match self {
            ValidationError::InvalidCVar(v) => ValidationErrorV::InvalidCVar(v@),
            ValidationError::InvalidCType(v) => ValidationErrorV::InvalidCType(v@),
            ValidationError::InvalidName(v) => ValidationErrorV::InvalidName(v@),
            ValidationError::InvalidShort(v) => ValidationErrorV::InvalidShort(v@),
            ValidationError::InvalidAlias(v) => ValidationErrorV::InvalidAlias(v@),
        }
    }
}

/// The text of a validation failure: the offending field's kind and value.
pub open spec fn spec_describe(e: ValidationErrorV) -> Seq<char> {
    match e {
        ValidationErrorV::InvalidCVar(v) => "invalid c variable \""@ + v + "\""@,
        ValidationErrorV::InvalidCType(v) => "invalid c type: \""@ + v + "\""@,
        ValidationErrorV::InvalidName(v) => "invalid argument name: \""@ + v + "\""@,
        ValidationErrorV::InvalidShort(v) => "invalid short name: \""@ + v + "\""@,
        ValidationErrorV::InvalidAlias(v) => "invalid argument alias name: \""@ + v + "\""@,
    }
}

/// A character that may open a target-language identifier.
pub open spec fn is_ident_start_char(c: char) -> bool {
    c == '_' || ('a' <= c && c <= 'z') || ('A' <= c && c <= 'Z')
}

/// A character that may continue a target-language identifier.
pub open spec fn is_ident_char(c: char) -> bool {
    is_ident_start_char(c) || ('0' <= c && c <= '9')
}

/// Identifier syntax: one opening character, then any number of continuing ones.
pub open spec fn is_identifier(s: Seq<char>) -> bool {
    &&& s.len() > 0
    &&& is_ident_start_char(s[0])
    &&& forall|i: int| 1 <= i < s.len() ==> #[trigger] is_ident_char(s[i])
}

pub open spec fn has_space(s: Seq<char>) -> bool {
    exists|i: int| 0 <= i < s.len() && s[i] == ' '
}

/// The whitelist membership test: the type a raw type name denotes, if any.
pub open spec fn spec_parse_ctype(s: Seq<char>) -> Option<CType> {
    if s == "char"@ {
        Some(CType::Char)
    } else if s == "char*"@ {
        Some(CType::CharPtr)
    } else if s == "int32"@ {
        Some(CType::Int32)
    } else {
        None
    }
}

/// The first violation a raw positional argument holds, if any:
/// its variable must be an identifier and its type must be whitelisted.
pub open spec fn p_item_error(p: RawPItem) -> Option<ValidationErrorV> {
    if !is_identifier(p.c_var@) {
        Some(ValidationErrorV::InvalidCVar(p.c_var@))
    } else if spec_parse_ctype(p.c_type@) is None {
        Some(ValidationErrorV::InvalidCType(p.c_type@))
    } else {
        None
    }
}

/// The first alias with an embedded space, if any.
pub open spec fn first_alias_error(aliases: Seq<String>) -> Option<ValidationErrorV>
    decreases aliases.len(),
{
    if aliases.len() == 0 {
        None
    } else if has_space(aliases[0]@) {
        Some(ValidationErrorV::InvalidAlias(aliases[0]@))
    } else {
        first_alias_error(aliases.drop_first())
    }
}

/// The first violation a raw named argument holds, if any, in the order the
/// fields are checked: variable, type, long name, short name, aliases.
pub open spec fn np_item_error(n: RawNPItem) -> Option<ValidationErrorV> {
    if !is_identifier(n.c_var@) {
        Some(ValidationErrorV::InvalidCVar(n.c_var@))
    } else if spec_parse_ctype(n.c_type@) is None {
        Some(ValidationErrorV::InvalidCType(n.c_type@))
    } else if has_space(n.name@) {
        Some(ValidationErrorV::InvalidName(n.name@))
    } else if n.short matches Some(s) && s@.len() != 1 {
        Some(ValidationErrorV::InvalidShort(n.short->Some_0@))
    } else {
        match n.aliases {
            Some(al) => first_alias_error(al@),
            None => None,
        }
    }
}

pub open spec fn p_item_valid(p: RawPItem) -> bool {
    &&& is_identifier(p.c_var@)
    &&& spec_parse_ctype(p.c_type@) is Some
}

pub open spec fn np_item_valid(n: RawNPItem) -> bool {
    &&& is_identifier(n.c_var@)
    &&& spec_parse_ctype(n.c_type@) is Some
    &&& !has_space(n.name@)
    &&& (n.short matches Some(s) ==> s@.len() == 1)
    &&& (n.aliases matches Some(al) ==> forall|i: int|
        0 <= i < al@.len() ==> !has_space(#[trigger] al@[i]@))
}

/// A raw specification is valid if and only if every argument it holds is.
pub open spec fn spec_all_valid(p: Seq<RawPItem>, np: Seq<RawNPItem>) -> bool {
    &&& forall|i: int| 0 <= i < p.len() ==> p_item_valid(#[trigger] p[i])
    &&& forall|i: int| 0 <= i < np.len() ==> np_item_valid(#[trigger] np[i])
}

/// The first violation of a sequence of items under the per-item rule `f`.
pub open spec fn first_item_error<T>(
    s: Seq<T>,
    f: spec_fn(T) -> Option<ValidationErrorV>,
) -> Option<ValidationErrorV>
    decreases s.len(),
{
    if s.len() == 0 {
        None
    } else if f(s[0]) is Some {
        f(s[0])
    } else {
        first_item_error(s.drop_first(), f)
    }
}

pub open spec fn p_error_fn() -> spec_fn(RawPItem) -> Option<ValidationErrorV> {
    |p: RawPItem| p_item_error(p)
}

pub open spec fn np_error_fn() -> spec_fn(RawNPItem) -> Option<ValidationErrorV> {
    |n: RawNPItem| np_item_error(n)
}

/// The violation a whole raw specification is rejected with, if any: the first
/// one over the positional arguments, then over the named arguments, in order.
pub open spec fn spec_first_error(
    p: Seq<RawPItem>,
    np: Seq<RawNPItem>,
) -> Option<ValidationErrorV> {
    match first_item_error(p, p_error_fn()) {
        Some(e) => Some(e),
        None => first_item_error(np, np_error_fn()),
    }
}

pub proof fn lemma_first_item_error_none<T>(s: Seq<T>, f: spec_fn(T) -> Option<ValidationErrorV>)
    ensures
        (first_item_error(s, f) is None) <==> (forall|i: int|
            0 <= i < s.len() ==> f(#[trigger] s[i]) is None),
    decreases s.len(),
{
    if s.len() == 0 {
    } else {
        lemma_first_item_error_none(s.drop_first(), f);
        if f(s[0]) is None && first_item_error(s.drop_first(), f) is None {
            assert forall|i: int| 0 <= i < s.len() implies f(#[trigger] s[i]) is None by {
                if i > 0 {
                    assert(s[i] == s.drop_first()[i - 1]);
                }
            }
        }
        if forall|i: int| 0 <= i < s.len() ==> f(#[trigger] s[i]) is None {
            assert forall|i: int| 0 <= i < s.drop_first().len() implies f(
                #[trigger] s.drop_first()[i],
            ) is None by {
                assert(s.drop_first()[i] == s[i + 1]);
            }
        }
    }
}

pub proof fn lemma_first_alias_error_none(aliases: Seq<String>)
    ensures
        (first_alias_error(aliases) is None) <==> (forall|i: int|
            0 <= i < aliases.len() ==> !has_space(#[trigger] aliases[i]@)),
    decreases aliases.len(),
{
    if aliases.len() == 0 {
    } else {
        lemma_first_alias_error_none(aliases.drop_first());
        if !has_space(aliases[0]@) && first_alias_error(aliases.drop_first()) is None {
            assert forall|i: int| 0 <= i < aliases.len() implies !has_space(
                #[trigger] aliases[i]@,
            ) by {
                if i > 0 {
                    assert(aliases[i] == aliases.drop_first()[i - 1]);
                }
            }
        }
        if forall|i: int| 0 <= i < aliases.len() ==> !has_space(#[trigger] aliases[i]@) {
            assert forall|i: int| 0 <= i < aliases.drop_first().len() implies !has_space(
                #[trigger] aliases.drop_first()[i]@,
            ) by {
                assert(aliases.drop_first()[i] == aliases[i + 1]);
            }
        }
    }
}

/// When the items before `i` are clean and item `i` violates its rule, the
/// sequence's first violation is item `i`'s.
pub proof fn lemma_first_item_error_at<T>(
    s: Seq<T>,
    f: spec_fn(T) -> Option<ValidationErrorV>,
    i: int,
)
    requires
        0 <= i < s.len(),
        forall|j: int| 0 <= j < i ==> f(#[trigger] s[j]) is None,
        f(s[i]) is Some,
    ensures
        first_item_error(s, f) == f(s[i]),
    decreases i,
{
    if i == 0 {
    } else {
        assert forall|j: int| 0 <= j < i - 1 implies f(#[trigger] s.drop_first()[j]) is None by {
            assert(s.drop_first()[j] == s[j + 1]);
        }
        assert(s.drop_first()[i - 1] == s[i]);
        lemma_first_item_error_at(s.drop_first(), f, i - 1);
    }
}

pub proof fn lemma_first_alias_error_at(s: Seq<String>, i: int)
    requires
        0 <= i < s.len(),
        forall|j: int| 0 <= j < i ==> !has_space(#[trigger] s[j]@),
        has_space(s[i]@),
    ensures
        first_alias_error(s) == Some(ValidationErrorV::InvalidAlias(s[i]@)),
    decreases i,
{
    if i == 0 {
    } else {
        assert forall|j: int| 0 <= j < i - 1 implies !has_space(#[trigger] s.drop_first()[j]@) by {
            assert(s.drop_first()[j] == s[j + 1]);
        }
        assert(s.drop_first()[i - 1] == s[i]);
        lemma_first_alias_error_at(s.drop_first(), i - 1);
    }
}

pub proof fn lemma_p_item_error_none(p: RawPItem)
    ensures
        (p_item_error(p) is None) <==> p_item_valid(p),
{
}

pub proof fn lemma_np_item_error_none(n: RawNPItem)
    ensures
        (np_item_error(n) is None) <==> np_item_valid(n),
{
    match n.aliases {
        Some(al) => {
            lemma_first_alias_error_none(al@);
        },
        None => {},
    }
}

/// A raw specification draws no violation exactly when all its arguments are valid.
pub proof fn lemma_first_error_none(p: Seq<RawPItem>, np: Seq<RawNPItem>)
    ensures
        (spec_first_error(p, np) is None) <==> spec_all_valid(p, np),
{
    lemma_first_item_error_none(p, p_error_fn());
    lemma_first_item_error_none(np, np_error_fn());
    assert forall|i: int| 0 <= i < p.len() implies (p_error_fn()(#[trigger] p[i]) is None)
        <==> p_item_valid(p[i]) by {
        lemma_p_item_error_none(p[i]);
    }
    assert forall|i: int| 0 <= i < np.len() implies (np_error_fn()(#[trigger] np[i]) is None)
        <==> np_item_valid(np[i]) by {
        lemma_np_item_error_none(np[i]);
    }
}

} // verus!
