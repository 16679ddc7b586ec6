//! The per-argument emitters and the module assembler: every function returns
//! text whose exact content is pinned by a spec function, and the assembled
//! module is the fixed-order concatenation of those fragments.

use vstd::prelude::*;

verus! {

use crate::model::CType;
use crate::model::NPItem;
use crate::model::PItem;
use crate::model::Spec;
use crate::seqtext::concat_map;
use crate::seqtext::lemma_concat_map_take_full;
use crate::seqtext::lemma_concat_map_take_succ;

/// The target-language name of a whitelisted type.
pub open spec fn spec_ctype_text(t: CType) -> Seq<char> {
    match t {
        CType::Char => "char"@,
        CType::CharPtr => "char*"@,
        CType::Int32 => "int32"@,
    }
}

/// The entry-point declaration of a positional argument's variable.
pub open spec fn spec_p_decl(p: PItem) -> Seq<char> {
    "\t"@ + spec_ctype_text(p.c_type) + " "@ + p.c_var@ + ";\n"@
}

/// A positional argument contributes nothing to the scan loop.
pub open spec fn spec_p_gen(p: PItem) -> Seq<char> {
    Seq::empty()
}

/// A positional argument contributes nothing after the scan loop.
pub open spec fn spec_p_post_loop(p: PItem) -> Seq<char> {
    Seq::empty()
}

/// The entry-point declaration of a named argument's variable.
pub open spec fn spec_decl_main(n: NPItem) -> Seq<char> {
    "\t"@ + spec_ctype_text(n.c_type) + " "@ + n.c_var@ + ";\n"@
}

/// The parsing routine's seen-flag declaration of a named argument.
pub open spec fn spec_decl_parse(n: NPItem) -> Seq<char> {
    "\tbool "@ + n.c_var@ + "__isset = false;\n"@
}

/// The token-to-value assignment of a named argument, by its type.
pub open spec fn spec_assign_line(n: NPItem) -> Seq<char> {
    match n.c_type {
        CType::Int32 => "\t\t\t*"@ + n.c_var@ + " = atoi(argv[++i]);\n"@,
        CType::CharPtr => "\t\t\t*"@ + n.c_var@ + " = argv[++i];\n"@,
        CType::Char => "\t\t\t*"@ + n.c_var@ + " = argv[++i][0];\n"@,
    }
}

/// The scan-loop fragment of a named argument: match the long flag, consume
/// the value token, assign it, and record the argument as seen.
pub open spec fn spec_match_fragment(n: NPItem) -> Seq<char> {
    "\t\tif (!strcmp(argv[i], \"--"@ + n.name@ + "\") && i+1<argc) {\n"@ + spec_assign_line(n)
        + "\t\t\t"@ + n.c_var@ + "__isset = true;\n"@ + "\t\t\targ_count += 2;\n"@ + "\t\t}\n"@
}

/// The default assignment of an unseen optional argument, by its type.
pub open spec fn spec_default_assign(t: CType, var: Seq<char>, d: Seq<char>) -> Seq<char> {
    match t {
        CType::Int32 => "\t\t*"@ + var + " = "@ + d + ";\n"@,
        CType::CharPtr => "\t\t*"@ + var + " = \""@ + d + "\";\n"@,
        CType::Char => "\t\t*"@ + var + " = '"@ + d + "';\n"@,
    }
}

/// What the post-loop check does when the argument was not seen: a required
/// argument fails the generated program; a default is assigned; otherwise the
/// variable stays unset.  The required check takes precedence over a default.
pub open spec fn spec_post_body(n: NPItem) -> Seq<char> {
    if n.required {
        "\t\tusage(argv[0]);\n"@ + "\t\texit(1);\n"@
    } else {
        match n.default {
            Some(d) => spec_default_assign(n.c_type, n.c_var@, d@),
            None => Seq::empty(),
        }
    }
}

/// The post-loop fragment of a named argument: its seen-flag check around the
/// required/default handling.
pub open spec fn spec_post_loop(n: NPItem) -> Seq<char> {
    "\tif (!"@ + n.c_var@ + "__isset) {\n"@ + spec_post_body(n) + "\t}\n"@
}

/// One alias as it appears in a usage line.
pub open spec fn spec_alias_fn() -> spec_fn(String) -> Seq<char> {
    |a: String| "  --"@ + a@
}

/// The usage line of a named argument: short form or padding, long name,
/// aliases, and the help text if present.
pub open spec fn spec_usage_line(n: NPItem) -> Seq<char> {
    let long = "  --"@ + n.name@ + concat_map(n.aliases@, spec_alias_fn());
    let hs = match n.help {
        Some(h) => "\n        "@ + h@,
        None => Seq::<char>::empty(),
    };
    match n.short {
        Some(s) => "  -"@ + s@ + long + hs + "\n"@,
        None => "     "@ + long + hs + "\n"@,
    }
}

pub open spec fn p_decl_fn() -> spec_fn(PItem) -> Seq<char> {
    |p: PItem| spec_p_decl(p)
}

pub open spec fn p_gen_fn() -> spec_fn(PItem) -> Seq<char> {
    |p: PItem| spec_p_gen(p)
}

pub open spec fn p_post_fn() -> spec_fn(PItem) -> Seq<char> {
    |p: PItem| spec_p_post_loop(p)
}

pub open spec fn p_addr_fn() -> spec_fn(PItem) -> Seq<char> {
    |p: PItem| ", &"@ + p.c_var@
}

pub open spec fn np_decl_main_fn() -> spec_fn(NPItem) -> Seq<char> {
    |n: NPItem| spec_decl_main(n)
}

pub open spec fn np_decl_parse_fn() -> spec_fn(NPItem) -> Seq<char> {
    |n: NPItem| spec_decl_parse(n)
}

pub open spec fn np_match_fn() -> spec_fn(NPItem) -> Seq<char> {
    |n: NPItem| spec_match_fragment(n)
}

pub open spec fn np_post_fn() -> spec_fn(NPItem) -> Seq<char> {
    |n: NPItem| spec_post_loop(n)
}

pub open spec fn np_addr_fn() -> spec_fn(NPItem) -> Seq<char> {
    |n: NPItem| ", &"@ + n.c_var@
}

pub open spec fn np_usage_line_fn() -> spec_fn(NPItem) -> Seq<char> {
    |n: NPItem| spec_usage_line(n)
}

/// The fixed header includes.
pub open spec fn spec_c_headers() -> Seq<char> {
    "#include<stdlib.h>\n#include<stdio.h>\n#include<string.h>"@
}

/// The usage function: a fixed banner and help opener, then one line per
/// named argument in input order.
pub open spec fn spec_c_usage(np: Seq<NPItem>) -> Seq<char> {
    "static void usage(const char *progname) {\n\tprintf(\"usage: %s [options] [TODO ...]\\n%s\", progname, \"\\\n"@
        + "  -h  --help\n        print this usage and exit\n"@ + concat_map(np, np_usage_line_fn())
        + "\");\n}\n"@
}

/// The parsing routine: seen-flag declarations, the consumption counter, the
/// scan loop over the named arguments, the reserved positional loop, and the
/// post-loop required/default handling, each section in input order.
pub open spec fn spec_c_parse_args(p: Seq<PItem>, np: Seq<NPItem>) -> Seq<char> {
    "void parse_args(int argc, char **argv /* TODO */) {\n"@ + concat_map(
        np,
        np_decl_parse_fn(),
    ) + "\tint arg_count = 0;\n"@ + "\tfor (int i = 1; i < argc; i++) {\n"@ + concat_map(
        np,
        np_match_fn(),
    ) + "\t}\n"@ + "\tfor (int i = arg_count; i < argc; i++) {\n"@ + concat_map(p, p_gen_fn())
        + "\t}\n"@ + concat_map(p, p_post_fn()) + concat_map(np, np_post_fn()) + "}\n"@
}

/// The entry-point skeleton: declarations for every argument, positional
/// first, then the call of the parsing routine with every variable's address.
pub open spec fn spec_c_main(p: Seq<PItem>, np: Seq<NPItem>) -> Seq<char> {
    "int main(int argc, char **argv) {\n"@ + concat_map(p, p_decl_fn()) + concat_map(
        np,
        np_decl_main_fn(),
    ) + "\n\tparse_args(argc, argv"@ + concat_map(p, p_addr_fn()) + concat_map(np, np_addr_fn())
        + ");\n\n"@ + "\t/* TODO: call your code here */\n"@ + "}\n"@
}

/// The whole emitted module: headers, usage, parsing routine and entry point,
/// in that fixed order, separated by blank lines.
pub open spec fn spec_gen(p: Seq<PItem>, np: Seq<NPItem>) -> Seq<char> {
    spec_c_headers() + "\n\n"@ + spec_c_usage(np) + "\n"@ + spec_c_parse_args(p, np) + "\n"@
        + spec_c_main(p, np)
}

/// The sink rejected the generated text.
#[derive(Debug, PartialEq, Eq)]
pub struct WriteError;

/// Relies on std::io::Write::write_all: it writes the whole buffer to the
/// sink or fails.  Nothing is assumed of the sink, so nothing is promised of
/// the outcome.
#[verifier::external_body]
fn write_all_bytes<W: std::io::Write>(wrt: &mut W, buf: &[u8]) -> (r: Result<(), WriteError>) {
    match wrt.write_all(buf) {
        Ok(()) => Ok(()),
        Err(_) => Err(WriteError),
    }
}

impl CType {
    /// The target-language spelling of this type.
    pub fn text(&self) -> (r: &'static str)
        ensures
            r@ == spec_ctype_text(*self),
    {
        match self {
            CType::Char => "char",
            CType::CharPtr => "char*",
            CType::Int32 => "int32",
        }
    }
}

impl PItem {
    /// The declaration of this argument's variable in the entry point.
    pub fn decl(&self) -> (r: String)
        ensures
            r@ == spec_p_decl(*self),
    {
        let mut code = String::new();
        code.append("\t");
        code.append(self.c_type.text());
        code.append(" ");
        code.append(self.c_var.as_str());
        code.append(";\n");
        proof {
            assert(code@ =~= spec_p_decl(*self));
        }
        code
    }

    /// A positional argument adds nothing to the scan loop.
    pub fn gen(&self) -> (r: String)
        ensures
            r@ == spec_p_gen(*self),
    {
        String::new()
    }

    /// A positional argument adds nothing after the scan loop.
    pub fn post_loop(&self) -> (r: String)
        ensures
            r@ == spec_p_post_loop(*self),
    {
        String::new()
    }
}

impl NPItem {
    /// The declaration of this argument's variable in the entry point.
    pub fn decl_main(&self) -> (r: String)
        ensures
            r@ == spec_decl_main(*self),
    {
        let mut code = String::new();
        code.append("\t");
        code.append(self.c_type.text());
        code.append(" ");
        code.append(self.c_var.as_str());
        code.append(";\n");
        proof {
            assert(code@ =~= spec_decl_main(*self));
        }
        code
    }

    /// The declaration of this argument's seen flag in the parsing routine.
    pub fn decl_parse(&self) -> (r: String)
        ensures
            r@ == spec_decl_parse(*self),
    {
        let mut code = String::new();
        code.append("\tbool ");
        code.append(self.c_var.as_str());
        code.append("__isset = false;\n");
        proof {
            assert(code@ =~= spec_decl_parse(*self));
        }
        code
    }

    /// The scan-loop fragment: when the current token equals `--<name>` and a
    /// value token follows, convert it per the argument's type, assign it, set
    /// the seen flag, and advance the consumption counter by two.
    pub fn gen(&self) -> (r: String)
        ensures
            r@ == spec_match_fragment(*self),
    {
        let mut code = String::new();
        code.append("\t\tif (!strcmp(argv[i], \"--");
        code.append(self.name.as_str());
        code.append("\") && i+1<argc) {\n");
        match self.c_type {
            CType::Int32 => {
                code.append("\t\t\t*");
                code.append(self.c_var.as_str());
                code.append(" = atoi(argv[++i]);\n");
            },
            CType::CharPtr => {
                code.append("\t\t\t*");
                code.append(self.c_var.as_str());
                code.append(" = argv[++i];\n");
            },
            CType::Char => {
                code.append("\t\t\t*");
                code.append(self.c_var.as_str());
                code.append(" = argv[++i][0];\n");
            },
        }
        code.append("\t\t\t");
        code.append(self.c_var.as_str());
        code.append("__isset = true;\n");
        code.append("\t\t\targ_count += 2;\n");
        code.append("\t\t}\n");
        proof {
            assert(code@ =~= spec_match_fragment(*self));
        }
        code
    }

    /// The post-loop fragment: check the seen flag; when unset, a required
    /// argument prints usage and exits nonzero, an optional one with a default
    /// is assigned that default, and otherwise the variable stays unset.
    pub fn post_loop(&self) -> (r: String)
        ensures
            r@ == spec_post_loop(*self),
    {
        let mut code = String::new();
        code.append("\tif (!");
        code.append(self.c_var.as_str());
        code.append("__isset) {\n");
        if self.required {
            code.append("\t\tusage(argv[0]);\n");
            code.append("\t\texit(1);\n");
        } else {
            match &self.default {
                Some(d) => {
                    match self.c_type {
                        CType::Int32 => {
                            code.append("\t\t*");
                            code.append(self.c_var.as_str());
                            code.append(" = ");
                            code.append(d.as_str());
                            code.append(";\n");
                        },
                        CType::CharPtr => {
                            code.append("\t\t*");
                            code.append(self.c_var.as_str());
                            code.append(" = \"");
                            code.append(d.as_str());
                            code.append("\";\n");
                        },
                        CType::Char => {
                            code.append("\t\t*");
                            code.append(self.c_var.as_str());
                            code.append(" = '");
                            code.append(d.as_str());
                            code.append("';\n");
                        },
                    }
                },
                None => {},
            }
        }
        code.append("\t}\n");
        proof {
            assert(code@ =~= spec_post_loop(*self));
        }
        code
    }

    /// This argument's line in the usage text.
    #[verifier::loop_isolation(false)]
    pub fn usage_line(&self) -> (r: String)
        ensures
            r@ == spec_usage_line(*self),
    {
        let mut long = String::from_str("  --");
        long.append(self.name.as_str());
        let ghost long_pre = "  --"@ + self.name@;
        let mut i: usize = 0;
        while i < self.aliases.len()
            invariant
                i <= self.aliases@.len(),
                long@ == long_pre + concat_map(self.aliases@.take(i as int), spec_alias_fn()),
            decreases self.aliases@.len() - i,
        {
            long.append("  --");
            long.append(self.aliases[i].as_str());
            proof {
                lemma_concat_map_take_succ(self.aliases@, spec_alias_fn(), i as int);
                assert(long@ =~= long_pre + concat_map(
                    self.aliases@.take(i as int + 1),
                    spec_alias_fn(),
                ));
            }
            i += 1;
        }
        proof {
            lemma_concat_map_take_full(self.aliases@, spec_alias_fn());
        }
        let mut line = String::new();
        match &self.short {
            Some(s) => {
                line.append("  -");
                line.append(s.as_str());
            },
            None => {
                line.append("     ");
            },
        }
        line.append(long.as_str());
        match &self.help {
            Some(h) => {
                line.append("\n        ");
                line.append(h.as_str());
            },
            None => {},
        }
        line.append("\n");
        proof {
            assert(line@ =~= spec_usage_line(*self));
        }
        line
    }
}

impl Spec {
    /// The fixed header includes.
    pub fn c_headers(&self) -> (r: String)
        ensures
            r@ == spec_c_headers(),
    {
        String::from_str("#include<stdlib.h>\n#include<stdio.h>\n#include<string.h>")
    }

    /// The usage function: fixed banner, the help opener, then one line per
    /// named argument in input order.
    #[verifier::loop_isolation(false)]
    pub fn c_usage(&self) -> (r: String)
        ensures
            r@ == spec_c_usage(self.non_positional@),
    {
        let mut help = String::from_str("  -h  --help\n        print this usage and exit\n");
        let ghost help_pre = "  -h  --help\n        print this usage and exit\n"@;
        let mut i: usize = 0;
        while i < self.non_positional.len()
            invariant
                i <= self.non_positional@.len(),
                help@ == help_pre + concat_map(
                    self.non_positional@.take(i as int),
                    np_usage_line_fn(),
                ),
            decreases self.non_positional@.len() - i,
        {
            let line = self.non_positional[i].usage_line();
            help.append(line.as_str());
            proof {
                lemma_concat_map_take_succ(self.non_positional@, np_usage_line_fn(), i as int);
                assert(help@ =~= help_pre + concat_map(
                    self.non_positional@.take(i as int + 1),
                    np_usage_line_fn(),
                ));
            }
            i += 1;
        }
        proof {
            lemma_concat_map_take_full(self.non_positional@, np_usage_line_fn());
        }
        let mut out = String::from_str(
            "static void usage(const char *progname) {\n\tprintf(\"usage: %s [options] [TODO ...]\\n%s\", progname, \"\\\n",
        );
        out.append(help.as_str());
        out.append("\");\n}\n");
        proof {
            assert(out@ =~= spec_c_usage(self.non_positional@));
        }
        out
    }

    /// The parsing routine, assembled section by section in fixed order.
    #[verifier::loop_isolation(false)]
    pub fn c_parse_args(&self) -> (r: String)
        ensures
            r@ == spec_c_parse_args(self.positional@, self.non_positional@),
    {
        let ghost p = self.positional@;
        let ghost np = self.non_positional@;
        let mut body = String::from_str(
            "void parse_args(int argc, char **argv /* TODO */) {\n",
        );
        let ghost pre1 = "void parse_args(int argc, char **argv /* TODO */) {\n"@;
        let mut i: usize = 0;
        while i < self.non_positional.len()
            invariant
                i <= np.len(),
                body@ == pre1 + concat_map(np.take(i as int), np_decl_parse_fn()),
            decreases np.len() - i,
        {
            let frag = self.non_positional[i].decl_parse();
            body.append(frag.as_str());
            proof {
                lemma_concat_map_take_succ(np, np_decl_parse_fn(), i as int);
                assert(body@ =~= pre1 + concat_map(np.take(i as int + 1), np_decl_parse_fn()));
            }
            i += 1;
        }
        proof {
            lemma_concat_map_take_full(np, np_decl_parse_fn());
        }
        body.append("\tint arg_count = 0;\n");
        body.append("\tfor (int i = 1; i < argc; i++) {\n");
        let ghost pre2 = pre1 + concat_map(np, np_decl_parse_fn()) + "\tint arg_count = 0;\n"@
            + "\tfor (int i = 1; i < argc; i++) {\n"@;
        proof {
            assert(body@ =~= pre2);
        }
        let mut k: usize = 0;
        while k < self.non_positional.len()
            invariant
                k <= np.len(),
                body@ == pre2 + concat_map(np.take(k as int), np_match_fn()),
            decreases np.len() - k,
        {
            let frag = self.non_positional[k].gen();
            body.append(frag.as_str());
            proof {
                lemma_concat_map_take_succ(np, np_match_fn(), k as int);
                assert(body@ =~= pre2 + concat_map(np.take(k as int + 1), np_match_fn()));
            }
            k += 1;
        }
        proof {
            lemma_concat_map_take_full(np, np_match_fn());
        }
        body.append("\t}\n");
        body.append("\tfor (int i = arg_count; i < argc; i++) {\n");
        let ghost pre3 = pre2 + concat_map(np, np_match_fn()) + "\t}\n"@
            + "\tfor (int i = arg_count; i < argc; i++) {\n"@;
        proof {
            assert(body@ =~= pre3);
        }
        let mut m: usize = 0;
        while m < self.positional.len()
            invariant
                m <= p.len(),
                body@ == pre3 + concat_map(p.take(m as int), p_gen_fn()),
            decreases p.len() - m,
        {
            let frag = self.positional[m].gen();
            body.append(frag.as_str());
            proof {
                lemma_concat_map_take_succ(p, p_gen_fn(), m as int);
                assert(body@ =~= pre3 + concat_map(p.take(m as int + 1), p_gen_fn()));
            }
            m += 1;
        }
        proof {
            lemma_concat_map_take_full(p, p_gen_fn());
        }
        body.append("\t}\n");
        let ghost pre4 = pre3 + concat_map(p, p_gen_fn()) + "\t}\n"@;
        proof {
            assert(body@ =~= pre4);
        }
        let mut q: usize = 0;
        while q < self.positional.len()
            invariant
                q <= p.len(),
                body@ == pre4 + concat_map(p.take(q as int), p_post_fn()),
            decreases p.len() - q,
        {
            let frag = self.positional[q].post_loop();
            body.append(frag.as_str());
            proof {
                lemma_concat_map_take_succ(p, p_post_fn(), q as int);
                assert(body@ =~= pre4 + concat_map(p.take(q as int + 1), p_post_fn()));
            }
            q += 1;
        }
        proof {
            lemma_concat_map_take_full(p, p_post_fn());
        }
        let ghost pre5 = pre4 + concat_map(p, p_post_fn());
        let mut w: usize = 0;
        while w < self.non_positional.len()
            invariant
                w <= np.len(),
                body@ == pre5 + concat_map(np.take(w as int), np_post_fn()),
            decreases np.len() - w,
        {
            let frag = self.non_positional[w].post_loop();
            body.append(frag.as_str());
            proof {
                lemma_concat_map_take_succ(np, np_post_fn(), w as int);
                assert(body@ =~= pre5 + concat_map(np.take(w as int + 1), np_post_fn()));
            }
            w += 1;
        }
        proof {
            lemma_concat_map_take_full(np, np_post_fn());
        }
        body.append("}\n");
        proof {
            assert(body@ =~= spec_c_parse_args(p, np));
        }
        body
    }

    /// The entry-point skeleton: declarations in input order, positional
    /// first, then the parsing call with every variable's address.
    #[verifier::loop_isolation(false)]
    pub fn c_main(&self) -> (r: String)
        ensures
            r@ == spec_c_main(self.positional@, self.non_positional@),
    {
        let ghost p = self.positional@;
        let ghost np = self.non_positional@;
        let mut out = String::from_str("int main(int argc, char **argv) {\n");
        let ghost pre1 = "int main(int argc, char **argv) {\n"@;
        let mut i: usize = 0;
        while i < self.positional.len()
            invariant
                i <= p.len(),
                out@ == pre1 + concat_map(p.take(i as int), p_decl_fn()),
            decreases p.len() - i,
        {
            let frag = self.positional[i].decl();
            out.append(frag.as_str());
            proof {
                lemma_concat_map_take_succ(p, p_decl_fn(), i as int);
                assert(out@ =~= pre1 + concat_map(p.take(i as int + 1), p_decl_fn()));
            }
            i += 1;
        }
        proof {
            lemma_concat_map_take_full(p, p_decl_fn());
        }
        let ghost pre2 = pre1 + concat_map(p, p_decl_fn());
        let mut k: usize = 0;
        while k < self.non_positional.len()
            invariant
                k <= np.len(),
                out@ == pre2 + concat_map(np.take(k as int), np_decl_main_fn()),
            decreases np.len() - k,
        {
            let frag = self.non_positional[k].decl_main();
            out.append(frag.as_str());
            proof {
                lemma_concat_map_take_succ(np, np_decl_main_fn(), k as int);
                assert(out@ =~= pre2 + concat_map(np.take(k as int + 1), np_decl_main_fn()));
            }
            k += 1;
        }
        proof {
            lemma_concat_map_take_full(np, np_decl_main_fn());
        }
        out.append("\n\tparse_args(argc, argv");
        let ghost pre3 = pre2 + concat_map(np, np_decl_main_fn()) + "\n\tparse_args(argc, argv"@;
        proof {
            assert(out@ =~= pre3);
        }
        let mut m: usize = 0;
        while m < self.positional.len()
            invariant
                m <= p.len(),
                out@ == pre3 + concat_map(p.take(m as int), p_addr_fn()),
            decreases p.len() - m,
        {
            out.append(", &");
            out.append(self.positional[m].c_var.as_str());
            proof {
                lemma_concat_map_take_succ(p, p_addr_fn(), m as int);
                assert(out@ =~= pre3 + concat_map(p.take(m as int + 1), p_addr_fn()));
            }
            m += 1;
        }
        proof {
            lemma_concat_map_take_full(p, p_addr_fn());
        }
        let ghost pre4 = pre3 + concat_map(p, p_addr_fn());
        let mut q: usize = 0;
        while q < self.non_positional.len()
            invariant
                q <= np.len(),
                out@ == pre4 + concat_map(np.take(q as int), np_addr_fn()),
            decreases np.len() - q,
        {
            out.append(", &");
            out.append(self.non_positional[q].c_var.as_str());
            proof {
                lemma_concat_map_take_succ(np, np_addr_fn(), q as int);
                assert(out@ =~= pre4 + concat_map(np.take(q as int + 1), np_addr_fn()));
            }
            q += 1;
        }
        proof {
            lemma_concat_map_take_full(np, np_addr_fn());
        }
        out.append(");\n\n");
        out.append("\t/* TODO: call your code here */\n");
        out.append("}\n");
        proof {
            assert(out@ =~= spec_c_main(p, np));
        }
        out
    }

    /// Writes the generated module text to the given sink, reporting failure
    /// instead of stating anything about the sink itself.
    pub fn writeout<W: std::io::Write>(&self, wrt: &mut W) -> (r: Result<(), WriteError>) {
        let code = self.gen();
        write_all_bytes(wrt, code.as_str().as_bytes())
    }

    /// Generates the whole module text for this specification.
    pub fn gen(&self) -> (r: String)
        ensures
            r@ == spec_gen(self.positional@, self.non_positional@),
    {
        let h = self.c_headers();
        let usage = self.c_usage();
        let body = self.c_parse_args();
        let entry = self.c_main();
        let mut out = String::new();
        out.append(h.as_str());
        out.append("\n\n");
        out.append(usage.as_str());
        out.append("\n");
        out.append(body.as_str());
        out.append("\n");
        out.append(entry.as_str());
        proof {
            assert(out@ =~= spec_gen(self.positional@, self.non_positional@));
        }
        out
    }
}

} // verus!
