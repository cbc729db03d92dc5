use cog_agent::json::{JsonNumber, JsonValue};
use cog_agent::json_text::parse;
use cog_agent::text::{has_prefix, line_is_blank, str_eq};

#[test]
fn parse_reads_an_object() {
    let v = parse("{\"id\": 7, \"method\": \"fs/read_text_file\", \"x\": -3}").expect("valid json");
    assert_eq!(v.get("id").and_then(|v| v.as_u64()), Some(7));
    assert_eq!(v.get("method").and_then(|v| v.as_str()), Some("fs/read_text_file"));
    assert_eq!(v.get("x"), Some(&JsonValue::Number(JsonNumber::NegInt(-3))));
    assert_eq!(v.get("missing"), None);
}

#[test]
fn parse_rejects_garbage() {
    assert_eq!(parse("{not json"), None);
    assert_eq!(parse(""), None);
    assert_eq!(parse("{\"a\": 1} trailing"), None);
}

#[test]
fn parse_reads_every_kind_of_value() {
    let v = parse("[null, true, 18446744073709551615, -9223372036854775808, 1.5, \"s\", [], {}]")
        .expect("valid json");
    let expected = JsonValue::Array(vec![
        JsonValue::Null,
        JsonValue::Bool(true),
        JsonValue::Number(JsonNumber::PosInt(u64::MAX)),
        JsonValue::Number(JsonNumber::NegInt(i64::MIN)),
        JsonValue::Number(JsonNumber::Float(1.5f64.to_bits())),
        JsonValue::String("s".to_string()),
        JsonValue::Array(vec![]),
        JsonValue::Object(vec![]),
    ]);
    assert_eq!(v, expected);
}

#[test]
fn parse_keeps_the_last_of_two_equal_keys() {
    let v = parse("{\"a\": 1, \"a\": 2}").expect("valid json");
    assert_eq!(v.get("a").and_then(|v| v.as_u64()), Some(2));
}

#[test]
fn parse_tolerates_white_space_around_the_document() {
    let v = parse("  {\"a\": [1, 2]}\t").expect("valid json");
    assert_eq!(
        v.get("a"),
        Some(&JsonValue::Array(vec![JsonValue::unsigned(1), JsonValue::unsigned(2)]))
    );
}

#[test]
fn get_returns_the_last_member_with_the_key() {
    let v = JsonValue::Object(vec![
        ("k".to_string(), JsonValue::unsigned(1)),
        ("other".to_string(), JsonValue::Null),
        ("k".to_string(), JsonValue::unsigned(2)),
    ]);
    assert_eq!(v.get("k"), Some(&JsonValue::unsigned(2)));
    assert_eq!(v.get("other"), Some(&JsonValue::Null));
    assert_eq!(v.get("K"), None);
}

#[test]
fn get_on_a_value_that_is_no_object_gives_nothing() {
    assert_eq!(JsonValue::Null.get("a"), None);
    assert_eq!(JsonValue::string("a").get("a"), None);
    assert_eq!(JsonValue::Array(vec![JsonValue::Null]).get("0"), None);
}

#[test]
fn numbers_convert_as_far_as_they_fit() {
    assert_eq!(JsonNumber::PosInt(5).as_u64(), Some(5));
    assert_eq!(JsonNumber::PosInt(5).as_i64(), Some(5));
    assert_eq!(JsonNumber::PosInt(i64::MAX as u64).as_i64(), Some(i64::MAX));
    assert_eq!(JsonNumber::PosInt(i64::MAX as u64 + 1).as_i64(), None);
    assert_eq!(JsonNumber::NegInt(-5).as_u64(), None);
    assert_eq!(JsonNumber::NegInt(-5).as_i64(), Some(-5));
    assert_eq!(JsonNumber::Float(0).as_u64(), None);
    assert_eq!(JsonNumber::Float(0).as_i64(), None);
    assert_eq!(JsonNumber::from_i64(-1), JsonNumber::NegInt(-1));
    assert_eq!(JsonNumber::from_i64(0), JsonNumber::PosInt(0));
    assert_eq!(JsonValue::signed(-32000), JsonValue::Number(JsonNumber::NegInt(-32000)));
    assert_eq!(JsonValue::signed(7), JsonValue::Number(JsonNumber::PosInt(7)));
}

#[test]
fn accessors_answer_only_for_their_own_kind() {
    assert_eq!(JsonValue::string("x").as_str(), Some("x"));
    assert_eq!(JsonValue::unsigned(1).as_str(), None);
    assert_eq!(JsonValue::string("1").as_u64(), None);
    assert_eq!(JsonValue::unsigned(1).as_u64(), Some(1));
    assert_eq!(JsonValue::signed(-1).as_i64(), Some(-1));
    assert!(JsonValue::Null.is_null());
    assert!(!JsonValue::Bool(false).is_null());
}

#[test]
fn missing_members_have_defaults() {
    let v = JsonValue::object2(
        "line",
        JsonValue::unsigned(3),
        "path",
        JsonValue::string("/tmp/x"),
    );
    assert_eq!(v.str_or_empty("path"), "/tmp/x");
    assert_eq!(v.str_or_empty("line"), "");
    assert_eq!(v.str_or_empty("nothing"), "");
    assert_eq!(v.get_or_null("line"), JsonValue::unsigned(3));
    assert_eq!(v.get_or_null("limit"), JsonValue::Null);
    assert_eq!(JsonValue::optional_string(&None), JsonValue::Null);
    assert_eq!(JsonValue::optional_string(&Some("d".to_string())), JsonValue::string("d"));
}

#[test]
fn a_clone_is_equal_to_what_it_copies() {
    let v = JsonValue::object3(
        "a",
        JsonValue::Array(vec![JsonValue::Null, JsonValue::Bool(true)]),
        "b",
        JsonValue::object1("c", JsonValue::string("d")),
        "e",
        JsonValue::Number(JsonNumber::Float(7)),
    );
    assert_eq!(v.clone(), v);
}

#[test]
fn builders_keep_the_order_of_the_members() {
    let first = ("d", JsonValue::unsigned(1));
    let second = ("c", JsonValue::unsigned(2));
    let third = ("b", JsonValue::unsigned(3));
    let fourth = ("a", JsonValue::unsigned(4));
    let v = JsonValue::object4(
        first.0, first.1, second.0, second.1, third.0, third.1, fourth.0, fourth.1,
    );
    assert_eq!(
        v,
        JsonValue::Object(vec![
            ("d".to_string(), JsonValue::unsigned(1)),
            ("c".to_string(), JsonValue::unsigned(2)),
            ("b".to_string(), JsonValue::unsigned(3)),
            ("a".to_string(), JsonValue::unsigned(4)),
        ])
    );
    assert_eq!(
        JsonValue::object2(first.0, JsonValue::Null, fourth.0, JsonValue::Null),
        JsonValue::Object(vec![
            ("d".to_string(), JsonValue::Null),
            ("a".to_string(), JsonValue::Null),
        ])
    );
    assert_eq!(JsonValue::array(vec![JsonValue::Null]), JsonValue::Array(vec![JsonValue::Null]));
    assert_eq!(JsonValue::empty_object(), JsonValue::Object(vec![]));
}

#[test]
fn blank_lines_hold_only_white_space() {
    assert!(line_is_blank(""));
    assert!(line_is_blank("   "));
    assert!(line_is_blank(" \t\r\n\u{b}\u{c}"));
    assert!(line_is_blank("\u{85}\u{a0}\u{1680}\u{2000}\u{200a}\u{2028}\u{2029}\u{202f}\u{205f}\u{3000}"));
    assert!(!line_is_blank(" x "));
    assert!(!line_is_blank("\u{200b}"));
    assert!(!line_is_blank("{}"));
    assert!(!line_is_blank("\u{8}"));
    assert!(!line_is_blank("\u{e}"));
}

#[test]
fn blank_agrees_with_trimming() {
    for text in ["", " ", "\t\n", "a", " a", "\u{2003}", "\u{feff}", "\u{1c}", "\u{1f}", "\u{180e}"] {
        assert_eq!(line_is_blank(text), text.trim().is_empty(), "{:?}", text);
    }
}

#[test]
fn strings_are_compared_by_their_characters() {
    assert!(str_eq("", ""));
    assert!(str_eq("session/update", "session/update"));
    assert!(!str_eq("session/update", "session/updatE"));
    assert!(!str_eq("session/update", "session/updat"));
    assert!(str_eq("grüße", "grüße"));
    assert!(!str_eq("grüße", "grusse"));
}

#[test]
fn prefixes_are_found() {
    assert!(has_prefix("_cog.nvim/grep", "_cog.nvim/"));
    assert!(has_prefix("_cog.nvim/", "_cog.nvim/"));
    assert!(has_prefix("anything", ""));
    assert!(!has_prefix("_cog.nvim", "_cog.nvim/"));
    assert!(!has_prefix("x_cog.nvim/grep", "_cog.nvim/"));
    assert!(!has_prefix("", "_cog.nvim/"));
    assert!(has_prefix("éa", "é"));
    assert!(!has_prefix("e", "é"));
}
