use stargate::json::escape_json;

#[test]
fn plain_text_is_unchanged() {
    assert_eq!(escape_json("hello world"), "hello world");
}

#[test]
fn empty_text_stays_empty() {
    assert_eq!(escape_json(""), "");
}

#[test]
fn quotes_and_backslashes_take_backslash_escapes() {
    assert_eq!(escape_json("a\"b\\c"), "a\\\"b\\\\c");
}

#[test]
fn common_control_characters_take_short_escapes() {
    assert_eq!(escape_json("line1\nline2\r\ttab"), "line1\\nline2\\r\\ttab");
}

#[test]
fn other_control_characters_take_hex_escapes() {
    assert_eq!(escape_json("\u{01}x\u{1f}"), "\\u0001x\\u001f");
    assert_eq!(escape_json("\u{00}"), "\\u0000");
    assert_eq!(escape_json("\u{0b}"), "\\u000b");
    assert_eq!(escape_json("\u{10}"), "\\u0010");
}

#[test]
fn non_ascii_text_passes_through() {
    assert_eq!(escape_json("héllo ☃"), "héllo ☃");
}
