use flipt::json::{decimal_text, raw_array, string_array, string_object, JsonObject};

#[test]
fn decimal_digits() {
    assert_eq!(decimal_text(0), "0");
    assert_eq!(decimal_text(7), "7");
    assert_eq!(decimal_text(10), "10");
    assert_eq!(decimal_text(1234), "1234");
    assert_eq!(decimal_text(u64::MAX), "18446744073709551615");
}

#[test]
fn empty_object() {
    assert_eq!(JsonObject::new().finish(), "{}");
}

#[test]
fn object_members_in_order() {
    let mut o = JsonObject::new();
    o.string("a", "x");
    o.boolean("b", false);
    o.number("c", 42);
    o.raw("d", "[1]");
    assert_eq!(o.finish(), r#"{"a":"x","b":false,"c":42,"d":[1]}"#);
}

#[test]
fn strings_are_escaped() {
    let mut o = JsonObject::new();
    o.string("q\"k", "line\nbreak \"quoted\" \\");
    assert_eq!(o.finish(), r#"{"q\"k":"line\nbreak \"quoted\" \\"}"#);
}

#[test]
fn arrays() {
    assert_eq!(string_array(&vec![]), "[]");
    assert_eq!(string_array(&vec!["a".to_string(), "b\"".to_string()]), r#"["a","b\""]"#);
    assert_eq!(raw_array(&vec!["1".to_string(), "{}".to_string()]), "[1,{}]");
}

#[test]
fn string_objects() {
    assert_eq!(string_object(&vec![]), "{}");
    assert_eq!(
        string_object(&vec![("name".to_string(), "brett".to_string()), ("x".to_string(), "".to_string())]),
        r#"{"name":"brett","x":""}"#
    );
}

#[test]
fn control_characters_are_escaped() {
    let mut o = JsonObject::new();
    o.string("c", "\u{1}\u{8}\t\u{c}\r\u{1f} é/");
    assert_eq!(o.finish(), r#"{"c":"\u0001\b\t\f\r\u001f é/"}"#);
}
