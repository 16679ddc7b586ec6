use argen::RawNPItem;
use argen::RawPItem;
use argen::Spec;
use argen::ValidationError;

fn raw_np(c_var: &str, c_type: &str, name: &str) -> RawNPItem {
    RawNPItem {
        c_var: c_var.to_string(),
        c_type: c_type.to_string(),
        name: name.to_string(),
        short: None,
        aliases: None,
        help: None,
        required: None,
        default: None,
    }
}

fn raw_p(c_var: &str, c_type: &str) -> RawPItem {
    RawPItem { c_var: c_var.to_string(), c_type: c_type.to_string(), help: None }
}

#[test]
fn valid_spec_accepted() {
    let s = Spec::new(&vec![raw_p("count", "int32")], &vec![raw_np("host", "char*", "host")])
        .unwrap();
    assert_eq!(s.positional.len(), 1);
    assert_eq!(s.non_positional.len(), 1);
    assert_eq!(s.non_positional[0].c_var, "host");
    assert!(!s.non_positional[0].required);
    assert!(s.non_positional[0].aliases.is_empty());
}

#[test]
fn identifier_starting_with_digit_rejected() {
    let r = Spec::new(&vec![raw_p("3bad", "int32")], &vec![]);
    assert_eq!(r.err().unwrap(), ValidationError::InvalidCVar("3bad".to_string()));
}

#[test]
fn identifier_with_space_rejected() {
    let r = Spec::new(&vec![], &vec![raw_np("has space", "int32", "x")]);
    assert_eq!(r.err().unwrap(), ValidationError::InvalidCVar("has space".to_string()));
}

#[test]
fn empty_identifier_rejected() {
    let r = Spec::new(&vec![raw_p("", "char")], &vec![]);
    assert_eq!(r.err().unwrap(), ValidationError::InvalidCVar(String::new()));
}

#[test]
fn underscore_identifier_accepted() {
    assert!(Spec::new(&vec![raw_p("_x9", "char")], &vec![]).is_ok());
}

#[test]
fn unlisted_type_rejected() {
    let r = Spec::new(&vec![raw_p("x", "float")], &vec![]);
    assert_eq!(r.err().unwrap(), ValidationError::InvalidCType("float".to_string()));
}

#[test]
fn unlisted_type_rejected_on_named() {
    let r = Spec::new(&vec![], &vec![raw_np("x", "int64", "x")]);
    assert_eq!(r.err().unwrap(), ValidationError::InvalidCType("int64".to_string()));
}

#[test]
fn name_with_space_rejected() {
    let r = Spec::new(&vec![], &vec![raw_np("x", "int32", "bad name")]);
    assert_eq!(r.err().unwrap(), ValidationError::InvalidName("bad name".to_string()));
}

#[test]
fn short_of_length_two_rejected() {
    let mut n = raw_np("port", "int32", "port");
    n.short = Some("ab".to_string());
    let r = Spec::new(&vec![], &vec![n]);
    assert_eq!(r.err().unwrap(), ValidationError::InvalidShort("ab".to_string()));
}

#[test]
fn short_of_length_one_accepted() {
    let mut n = raw_np("port", "int32", "port");
    n.short = Some("p".to_string());
    assert!(Spec::new(&vec![], &vec![n]).is_ok());
}

#[test]
fn alias_with_space_rejected() {
    let mut n = raw_np("host", "char*", "host");
    n.aliases = Some(vec!["ok".to_string(), "not ok".to_string()]);
    let r = Spec::new(&vec![], &vec![n]);
    assert_eq!(r.err().unwrap(), ValidationError::InvalidAlias("not ok".to_string()));
}

#[test]
fn aliases_without_space_accepted() {
    let mut n = raw_np("host", "char*", "host");
    n.aliases = Some(vec!["server".to_string(), "addr".to_string()]);
    let s = Spec::new(&vec![], &vec![n]).unwrap();
    assert_eq!(s.non_positional[0].aliases, vec!["server".to_string(), "addr".to_string()]);
}

#[test]
fn first_violation_wins() {
    let r = Spec::new(&vec![raw_p("9p", "int32")], &vec![raw_np("x", "float", "x")]);
    assert_eq!(r.err().unwrap(), ValidationError::InvalidCVar("9p".to_string()));
}

#[test]
fn describe_names_field_and_value() {
    assert_eq!(
        ValidationError::InvalidCVar("3bad".to_string()).describe(),
        "invalid c variable \"3bad\""
    );
    assert_eq!(
        ValidationError::InvalidCType("float".to_string()).describe(),
        "invalid c type: \"float\""
    );
    assert_eq!(
        ValidationError::InvalidName("a b".to_string()).describe(),
        "invalid argument name: \"a b\""
    );
    assert_eq!(
        ValidationError::InvalidShort("ab".to_string()).describe(),
        "invalid short name: \"ab\""
    );
    assert_eq!(
        ValidationError::InvalidAlias("a b".to_string()).describe(),
        "invalid argument alias name: \"a b\""
    );
}

#[test]
fn required_flag_normalized() {
    let mut n = raw_np("a", "int32", "a");
    n.required = Some(true);
    let s = Spec::new(&vec![], &vec![n]).unwrap();
    assert!(s.non_positional[0].required);

    let mut n2 = raw_np("b", "int32", "b");
    n2.required = Some(false);
    let s2 = Spec::new(&vec![], &vec![n2]).unwrap();
    assert!(!s2.non_positional[0].required);
}
