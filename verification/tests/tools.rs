use qefro_backend_sdk::json::{JsonObject, JsonValue};
use qefro_backend_sdk::text::{decimal, decimal_i64, parse_i64, strip_end, trim};
use qefro_backend_sdk::tools::{
    normalize_lookup, normalized_lookup_field, ToolAuthMode, ToolLookup, ToolMetadata,
};

#[test]
fn normalize_lookup_dedupes() {
    let lookup = ToolLookup {
        by: Some("Email".into()),
        required: vec!["phone".into(), "email".into()],
    };
    assert_eq!(
        normalize_lookup(Some(&lookup)),
        vec!["phone".to_string(), "email".to_string()]
    );
}

#[test]
fn normalize_lookup_trims_and_drops_blanks() {
    let lookup = ToolLookup {
        by: Some(" Phone ".into()),
        required: vec![" ".into(), "Email ".into(), "EMAIL".into()],
    };
    assert_eq!(normalize_lookup(Some(&lookup)), vec!["email".to_string(), "phone".to_string()]);
    assert!(normalize_lookup(None).is_empty());
}

#[test]
fn a_normal_lookup_stays() {
    let lookup = ToolLookup { by: Some("Email".into()), required: vec![] };
    let once = normalized_lookup_field(Some(&lookup)).unwrap();
    assert_eq!(once.required, vec!["email".to_string()]);
    assert_eq!(normalized_lookup_field(Some(&once)), Some(once));
    assert_eq!(normalized_lookup_field(Some(&ToolLookup::default())), None);
    assert_eq!(normalized_lookup_field(None), None);
}

#[test]
fn auth_modes_have_names() {
    assert_eq!(ToolAuthMode::default(), ToolAuthMode::Optional);
    assert_eq!(ToolAuthMode::NoAuth.name(), "none");
    assert_eq!(ToolAuthMode::Optional.name(), "optional");
    assert_eq!(ToolAuthMode::Required.name(), "required");
    assert_eq!(ToolMetadata::default().auth, ToolAuthMode::Optional);
}

#[test]
fn text_is_trimmed_of_white_space() {
    assert_eq!(trim(" \t\u{a0}\u{3000}a b\n"), "a b");
    assert_eq!(trim("  "), "");
    assert_eq!(strip_end("http://h//", '/'), "http://h");
}

#[test]
fn numbers_are_read_and_written() {
    assert_eq!(decimal(0), "0");
    assert_eq!(decimal(u64::MAX), "18446744073709551615");
    assert_eq!(decimal_i64(i64::MIN), "-9223372036854775808");
    assert_eq!(parse_i64("-9223372036854775808"), Some(i64::MIN));
    assert_eq!(parse_i64("9223372036854775808"), None);
    assert_eq!(parse_i64("+7"), Some(7));
    assert_eq!(parse_i64("-0"), Some(0));
    assert_eq!(parse_i64(""), None);
    assert_eq!(parse_i64("-"), None);
    assert_eq!(parse_i64(" 7"), None);
}

#[test]
fn the_last_entry_of_a_key_counts() {
    let mut o = JsonObject::new();
    o.insert_str("a", "1");
    o.insert_str("b", "2");
    o.insert_str("a", "3");
    assert_eq!(o.get("a"), Some(&JsonValue::string("3")));
    assert_eq!(o.get("b"), Some(&JsonValue::string("2")));
    assert_eq!(o.get("c"), None);
}

#[test]
fn objects_are_equal_whatever_their_order() {
    let mut a = JsonObject::new();
    a.insert_str("x", "1");
    a.insert("y", JsonValue::Array(vec![JsonValue::Null, JsonValue::Bool(true)]));
    let mut b = JsonObject::new();
    b.insert("y", JsonValue::Array(vec![JsonValue::Null, JsonValue::Bool(true)]));
    b.insert_str("x", "0");
    assert_ne!(a, b);
    b.insert_str("x", "1");
    assert_eq!(a, b);
    b.insert("z", JsonValue::Null);
    assert_ne!(a, b);
    assert_ne!(b, a);
    assert_ne!(JsonValue::Array(vec![JsonValue::Null]), JsonValue::Array(vec![]));
    assert_ne!(JsonValue::Null, JsonValue::Object(a));
}
