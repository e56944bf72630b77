//! JSON values and texts.
use pa_daemon::json::{Json, Number};
use pa_daemon::text::{
    decimal_text, has_suffix, has_text, join_texts, lower_text, parse_number, split_text,
    split_words, trim_text, word_length,
};

#[test]
fn members_are_found_and_replaced() {
    let object = Json::object()
        .field("a", Json::uint(1))
        .field("b", Json::string("x"));
    assert_eq!(object.get_u64("a"), Some(1));
    assert_eq!(object.get_str("b"), Some("x"));
    assert_eq!(object.get_str("a"), None);
    assert_eq!(object.get_or_null("c"), Json::Null);
    let put = object.put("a", Json::Bool(true));
    assert_eq!(put.get_bool("a"), Some(true));
    let Json::Object(members) = &put else {
        panic!("an object");
    };
    assert_eq!(members.len(), 2);
    let without = put.without("a");
    assert_eq!(without.get("a"), None);
    assert!(without.same(&Json::object().field("b", Json::string("x"))));
    assert!(!without.same(&Json::object()));
    assert_eq!(without.duplicate(), without);
    assert_eq!(
        Json::object().field_opt("a", None).field_opt_str("b", Some("y")),
        Json::object().field("b", Json::string("y"))
    );
    assert_eq!(Json::Number(Number::Negative(-1)).as_u64(), None);
}

#[test]
fn numbers_are_read_back() {
    for n in [0, 7, 10, 4096, u64::MAX] {
        assert_eq!(decimal_text(n), n.to_string());
        assert_eq!(parse_number(&decimal_text(n)), Some(n));
    }
    assert_eq!(parse_number(""), None);
    assert_eq!(parse_number("1x"), None);
    assert_eq!(parse_number("18446744073709551616"), None);
}

#[test]
fn texts_are_cut_and_joined() {
    assert_eq!(trim_text(" \t a b \n"), "a b");
    assert_eq!(split_words("  a  b "), vec!["a", "b"]);
    assert_eq!(split_text("a,,b", ','), vec!["a", "", "b"]);
    let parts = vec!["a".to_string(), "b".to_string()];
    assert_eq!(join_texts(&parts, ", "), "a, b");
    assert_eq!(lower_text("ABC"), "abc");
    assert!(has_text("hello", "ell") && !has_text("hello", "elp"));
    assert!(has_suffix("hello", "lo") && !has_suffix("lo", "hello"));
    assert_eq!(word_length("compact focus"), 7);
}
