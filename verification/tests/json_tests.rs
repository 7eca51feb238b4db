//! The JSON model: parsing through serde_json, member access, number tokens,
//! and the canonical renderer.

use aisdk::json::{emit_json, parse_dec_u64, parse_json, JsonValue};

fn parse(s: &str) -> Option<JsonValue> {
    parse_json(&s.as_bytes().to_vec())
}

fn render(s: &str) -> String {
    let v = parse(s).unwrap();
    emit_json(&v, 64).unwrap()
}

#[test]
fn acceptance_follows_serde_json() {
    assert!(parse("{\"a\":1}").is_some());
    assert!(parse("[1,2,3]").is_some());
    assert!(parse("\"x\"").is_some());
    assert!(parse("null").is_some());
    assert!(parse("{\"a\":1").is_none());
    assert!(parse("").is_none());
    assert!(parse("{'a':1}").is_none());
}

#[test]
fn members_and_numbers_read_back() {
    let v = parse("{\"type\":\"text\",\"index\":12,\"nested\":{\"k\":\"v\"}}").unwrap();
    assert_eq!(v.get_str("type").map(|s| s.as_str()), Some("text"));
    assert_eq!(v.get_u64("index"), Some(12));
    assert_eq!(v.get_u64("type"), None);
    assert_eq!(v.get("nested").unwrap().get_str("k").map(|s| s.as_str()), Some("v"));
    assert!(v.get("absent").is_none());
}

#[test]
fn decimal_tokens_parse_within_u64_bounds() {
    assert_eq!(parse_dec_u64("0"), Some(0));
    assert_eq!(parse_dec_u64("42"), Some(42));
    assert_eq!(parse_dec_u64("9999999999999999999"), Some(9999999999999999999));
    assert_eq!(parse_dec_u64(""), None);
    assert_eq!(parse_dec_u64("-3"), None);
    assert_eq!(parse_dec_u64("1.5"), None);
    assert_eq!(parse_dec_u64("12345678901234567890"), None);
}

#[test]
fn rendering_is_compact_and_round_trips() {
    assert_eq!(render("{ \"b\" : 1 , \"a\" : [ true , null ] }"), "{\"a\":[true,null],\"b\":1}");
    assert_eq!(render("\"he\\\"llo\\n\""), "\"he\\\"llo\\n\"");
    assert_eq!(render("3.25"), "3.25");
    assert_eq!(render("[]"), "[]");
    assert_eq!(render("{}"), "{}");
    // What the library renders, serde_json accepts and reads back equal.
    let rendered = render("{\"x\":[1,{\"y\":\"z\"}],\"w\":false}");
    let ours: serde_json::Value = serde_json::from_str(&rendered).unwrap();
    let theirs: serde_json::Value =
        serde_json::from_str("{\"x\":[1,{\"y\":\"z\"}],\"w\":false}").unwrap();
    assert_eq!(ours, theirs);
}

#[test]
fn control_characters_render_in_escape_form() {
    let v = parse("\"a\\u0001b\"").unwrap();
    assert_eq!(emit_json(&v, 64).unwrap(), "\"a\\u0001b\"");
}

#[test]
fn rendering_gives_up_beyond_the_depth_budget() {
    let v = parse("[[[[1]]]]").unwrap();
    assert!(emit_json(&v, 2).is_none());
    assert!(emit_json(&v, 10).is_some());
}
