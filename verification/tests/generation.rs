use argen::CType;
use argen::NPItem;
use argen::PItem;
use argen::RawNPItem;
use argen::RawPItem;
use argen::Spec;

fn np(c_var: &str, c_type: CType, name: &str) -> NPItem {
    NPItem {
        c_var: c_var.to_string(),
        c_type,
        name: name.to_string(),
        short: None,
        aliases: vec![],
        help: None,
        required: false,
        default: None,
    }
}

#[test]
fn headers_text() {
    let s = Spec { positional: vec![], non_positional: vec![] };
    assert_eq!(s.c_headers(), "#include<stdlib.h>\n#include<stdio.h>\n#include<string.h>");
}

#[test]
fn empty_spec_module_text() {
    let s = Spec { positional: vec![], non_positional: vec![] };
    let mut expected = String::new();
    expected.push_str("#include<stdlib.h>\n#include<stdio.h>\n#include<string.h>");
    expected.push_str("\n\n");
    expected.push_str("static void usage(const char *progname) {\n");
    expected.push_str("\tprintf(\"usage: %s [options] [TODO ...]\\n%s\", progname, \"\\\n");
    expected.push_str("  -h  --help\n        print this usage and exit\n");
    expected.push_str("\");\n}\n");
    expected.push_str("\n");
    expected.push_str("void parse_args(int argc, char **argv /* TODO */) {\n");
    expected.push_str("\tint arg_count = 0;\n");
    expected.push_str("\tfor (int i = 1; i < argc; i++) {\n");
    expected.push_str("\t}\n");
    expected.push_str("\tfor (int i = arg_count; i < argc; i++) {\n");
    expected.push_str("\t}\n");
    expected.push_str("}\n");
    expected.push_str("\n");
    expected.push_str("int main(int argc, char **argv) {\n");
    expected.push_str("\n\tparse_args(argc, argv);\n\n");
    expected.push_str("\t/* TODO: call your code here */\n");
    expected.push_str("}\n");
    assert_eq!(s.gen(), expected);
}

#[test]
fn generation_is_deterministic() {
    let mut item = np("port", CType::Int32, "port");
    item.short = Some("p".to_string());
    item.required = true;
    let s = Spec {
        positional: vec![PItem {
            c_var: "path".to_string(),
            c_type: CType::CharPtr,
            help: None,
        }],
        non_positional: vec![item],
    };
    assert_eq!(s.gen(), s.gen());
}

#[test]
fn declarations_for_each_type() {
    assert_eq!(
        PItem { c_var: "c".to_string(), c_type: CType::Char, help: None }.decl(),
        "\tchar c;\n"
    );
    assert_eq!(
        PItem { c_var: "s".to_string(), c_type: CType::CharPtr, help: None }.decl(),
        "\tchar* s;\n"
    );
    assert_eq!(
        PItem { c_var: "n".to_string(), c_type: CType::Int32, help: None }.decl(),
        "\tint32 n;\n"
    );
    assert_eq!(np("n", CType::Int32, "n").decl_main(), "\tint32 n;\n");
}

#[test]
fn positional_fragments_are_empty() {
    let p = PItem { c_var: "x".to_string(), c_type: CType::Char, help: None };
    assert_eq!(p.gen(), "");
    assert_eq!(p.post_loop(), "");
}

#[test]
fn seen_flag_declaration() {
    assert_eq!(np("port", CType::Int32, "port").decl_parse(), "\tbool port__isset = false;\n");
}

#[test]
fn match_fragment_int32() {
    let mut expected = String::new();
    expected.push_str("\t\tif (!strcmp(argv[i], \"--port\") && i+1<argc) {\n");
    expected.push_str("\t\t\t*port = atoi(argv[++i]);\n");
    expected.push_str("\t\t\tport__isset = true;\n");
    expected.push_str("\t\t\targ_count += 2;\n");
    expected.push_str("\t\t}\n");
    assert_eq!(np("port", CType::Int32, "port").gen(), expected);
}

#[test]
fn match_fragment_string_and_char() {
    assert!(np("host", CType::CharPtr, "host").gen().contains("\t\t\t*host = argv[++i];\n"));
    assert!(np("mode", CType::Char, "mode").gen().contains("\t\t\t*mode = argv[++i][0];\n"));
}

#[test]
fn post_loop_applies_default_string() {
    let mut item = np("host", CType::CharPtr, "host");
    item.default = Some("localhost".to_string());
    assert_eq!(item.post_loop(), "\tif (!host__isset) {\n\t\t*host = \"localhost\";\n\t}\n");
}

#[test]
fn post_loop_default_literals_by_type() {
    let mut n_int = np("port", CType::Int32, "port");
    n_int.default = Some("8080".to_string());
    assert_eq!(n_int.post_loop(), "\tif (!port__isset) {\n\t\t*port = 8080;\n\t}\n");

    let mut n_char = np("mode", CType::Char, "mode");
    n_char.default = Some("a".to_string());
    assert_eq!(n_char.post_loop(), "\tif (!mode__isset) {\n\t\t*mode = 'a';\n\t}\n");
}

#[test]
fn post_loop_required_fails_generated_program() {
    let mut item = np("port", CType::Int32, "port");
    item.required = true;
    assert_eq!(item.post_loop(), "\tif (!port__isset) {\n\t\tusage(argv[0]);\n\t\texit(1);\n\t}\n");
}

#[test]
fn post_loop_unset_optional_without_default_leaves_variable() {
    assert_eq!(np("x", CType::Int32, "x").post_loop(), "\tif (!x__isset) {\n\t}\n");
}

#[test]
fn required_takes_precedence_over_default() {
    let mut item = np("port", CType::Int32, "port");
    item.required = true;
    item.default = Some("8080".to_string());
    let code = item.post_loop();
    assert_eq!(code, "\tif (!port__isset) {\n\t\tusage(argv[0]);\n\t\texit(1);\n\t}\n");
    assert!(!code.contains("8080"));
}

#[test]
fn usage_line_with_short_aliases_and_help() {
    let mut item = np("port", CType::Int32, "port");
    item.short = Some("p".to_string());
    item.aliases = vec!["prt".to_string()];
    item.help = Some("the port".to_string());
    assert_eq!(item.usage_line(), "  -p  --port  --prt\n        the port\n");
}

#[test]
fn usage_line_without_short() {
    assert_eq!(np("host", CType::CharPtr, "host").usage_line(), "       --host\n");
}

#[test]
fn usage_function_lists_arguments_in_order() {
    let s = Spec {
        positional: vec![],
        non_positional: vec![np("alpha", CType::Int32, "alpha"), np("beta", CType::Char, "beta")],
    };
    let usage = s.c_usage();
    assert!(usage.starts_with(
        "static void usage(const char *progname) {\n\tprintf(\"usage: %s [options] [TODO ...]\\n%s\", progname, \"\\\n"
    ));
    assert!(usage.contains("  -h  --help\n        print this usage and exit\n"));
    let a = usage.find("--alpha").unwrap();
    let b = usage.find("--beta").unwrap();
    assert!(a < b);
    assert!(usage.ends_with("\");\n}\n"));
}

#[test]
fn declaration_order_follows_input_order() {
    let s = Spec {
        positional: vec![
            PItem { c_var: "first".to_string(), c_type: CType::Char, help: None },
            PItem { c_var: "second".to_string(), c_type: CType::Int32, help: None },
        ],
        non_positional: vec![np("third", CType::CharPtr, "third")],
    };
    let entry = s.c_main();
    let i1 = entry.find("\tchar first;\n").unwrap();
    let i2 = entry.find("\tint32 second;\n").unwrap();
    let i3 = entry.find("\tchar* third;\n").unwrap();
    assert!(i1 < i2 && i2 < i3);
    assert!(entry.contains("\n\tparse_args(argc, argv, &first, &second, &third);\n\n"));
}

#[test]
fn parse_args_sections_in_order() {
    let mut item = np("port", CType::Int32, "port");
    item.required = true;
    let s = Spec { positional: vec![], non_positional: vec![item] };
    let body = s.c_parse_args();
    let decl = body.find("\tbool port__isset = false;\n").unwrap();
    let scan = body.find("\t\tif (!strcmp(argv[i], \"--port\") && i+1<argc) {\n").unwrap();
    let post = body.find("\tif (!port__isset) {\n").unwrap();
    assert!(decl < scan && scan < post);
    assert!(body.starts_with("void parse_args(int argc, char **argv /* TODO */) {\n"));
    assert!(body.ends_with("}\n"));
}

#[test]
fn required_port_scenario() {
    let raw = RawNPItem {
        c_var: "port".to_string(),
        c_type: "int32".to_string(),
        name: "port".to_string(),
        short: Some("p".to_string()),
        aliases: None,
        help: None,
        required: Some(true),
        default: None,
    };
    let s = Spec::new(&vec![], &vec![raw]).unwrap();
    let code = s.gen();
    assert!(code.contains("\tint32 port;\n"));
    assert!(code.contains("\tbool port__isset = false;\n"));
    assert!(code.contains("\t\tif (!strcmp(argv[i], \"--port\") && i+1<argc) {\n"));
    assert!(code.contains("\tif (!port__isset) {\n\t\tusage(argv[0]);\n\t\texit(1);\n\t}\n"));
}

#[test]
fn default_host_scenario() {
    let raw = RawNPItem {
        c_var: "host".to_string(),
        c_type: "char*".to_string(),
        name: "host".to_string(),
        short: None,
        aliases: None,
        help: None,
        required: None,
        default: Some("localhost".to_string()),
    };
    let s = Spec::new(&vec![], &vec![raw]).unwrap();
    let code = s.gen();
    assert!(code.contains("\tif (!host__isset) {\n\t\t*host = \"localhost\";\n\t}\n"));
}

#[test]
fn no_output_for_invalid_spec() {
    let raw = RawPItem { c_var: "3bad".to_string(), c_type: "int32".to_string(), help: None };
    assert!(Spec::new(&vec![raw], &vec![]).is_err());
}

struct RefusingSink;

impl std::io::Write for RefusingSink {
    fn write(&mut self, _buf: &[u8]) -> std::io::Result<usize> {
        Err(std::io::Error::new(std::io::ErrorKind::Other, "sink refused"))
    }

    fn flush(&mut self) -> std::io::Result<()> {
        Ok(())
    }
}

#[test]
fn writeout_reports_sink_failure() {
    let s = Spec { positional: vec![], non_positional: vec![] };
    let mut sink = RefusingSink;
    assert_eq!(s.writeout(&mut sink), Err(argen::WriteError));
}

#[test]
fn writeout_delivers_generated_text() {
    let s = Spec {
        positional: vec![],
        non_positional: vec![np("port", CType::Int32, "port")],
    };
    let mut sink: Vec<u8> = Vec::new();
    s.writeout(&mut sink).unwrap();
    assert_eq!(sink, s.gen().into_bytes());
}
