use jwks_verify::claims::Claims;
use jwks_verify::json_text::{decimal_string, json_quote};

#[test]
fn plain_text_is_quoted() {
    assert_eq!(json_quote("Missing Authorization header"), "\"Missing Authorization header\"");
}

#[test]
fn quotes_and_backslashes_are_escaped() {
    assert_eq!(json_quote("a\"b\\c"), "\"a\\\"b\\\\c\"");
}

#[test]
fn control_characters_use_short_escapes() {
    assert_eq!(json_quote("\u{8}\u{c}\n\r\t"), "\"\\b\\f\\n\\r\\t\"");
}

#[test]
fn other_control_characters_use_unicode_escapes() {
    assert_eq!(json_quote("\u{1}\u{1f}"), "\"\\u0001\\u001f\"");
}

#[test]
fn non_ascii_text_stands_as_itself() {
    assert_eq!(json_quote("héllo"), "\"héllo\"");
}

#[test]
fn quoting_agrees_with_the_reference_serializer() {
    for s in [
        "",
        "plain",
        "with \"quotes\" and \\slashes\\",
        "line\nbreaks\tand\rcontrols \u{0} \u{1f} \u{7f}",
        "ünïcode ✓",
    ] {
        assert_eq!(json_quote(s), serde_json::to_string(s).unwrap());
    }
}

#[test]
fn decimal_rendering_is_exact() {
    assert_eq!(decimal_string(0), "0");
    assert_eq!(decimal_string(7), "7");
    assert_eq!(decimal_string(1716239022), "1716239022");
    assert_eq!(decimal_string(u64::MAX), "18446744073709551615");
}

#[test]
fn claims_serialize_as_a_json_object() {
    let c = Claims { sub: "user_123".to_string(), exp: 1716239022 };
    assert_eq!(c.to_json(), "{\"sub\":\"user_123\",\"exp\":1716239022}");
}

#[test]
fn claims_with_awkward_subject_still_serialize_validly() {
    let c = Claims { sub: "we\"ird\\sub\n".to_string(), exp: 42 };
    let text = c.to_json();
    assert_eq!(text, "{\"sub\":\"we\\\"ird\\\\sub\\n\",\"exp\":42}");
    let parsed: serde_json::Value = serde_json::from_str(&text).unwrap();
    assert_eq!(parsed.get("sub").and_then(|v| v.as_str()), Some(c.sub.as_str()));
    assert_eq!(parsed.get("exp").and_then(|v| v.as_u64()), Some(42));
}
