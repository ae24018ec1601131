use torizon_cloud_cli::json::{compact_text, Json};
use torizon_cloud_cli::text::{
    decimal_i64, decimal_u32, decimal_u64, find_first, parse_u64, split_once, to_ascii_lowercase,
    trim_end_str, trim_str,
};

#[test]
fn decimal_round_trip_scenario() {
    for n in [0u64, 7, 10, 99, 100, 12345, u64::MAX] {
        let t = decimal_u64(n);
        assert_eq!(t, n.to_string());
        assert_eq!(parse_u64(&t), Some(n));
    }
    assert_eq!(decimal_i64(i64::MIN), i64::MIN.to_string());
    assert_eq!(decimal_i64(-42), "-42");
    assert_eq!(decimal_u32(u32::MAX), "4294967295");
}

#[test]
fn parse_u64_follows_from_str() {
    assert_eq!(parse_u64("+5"), Some(5));
    assert_eq!(parse_u64("007"), Some(7));
    assert_eq!(parse_u64("18446744073709551615"), Some(u64::MAX));
    assert_eq!(parse_u64("18446744073709551616"), None);
    assert_eq!(parse_u64(""), None);
    assert_eq!(parse_u64("+"), None);
    assert_eq!(parse_u64("-1"), None);
    assert_eq!(parse_u64(" 1"), None);
    assert_eq!(parse_u64("1a"), None);
}

#[test]
fn trimming_follows_unicode_whitespace() {
    assert_eq!(trim_str("  a b \n\t"), "a b");
    assert_eq!(trim_str("\u{3000}x\u{a0}"), "x");
    assert_eq!(trim_str("   "), "");
    assert_eq!(trim_end_str("  a  "), "  a");
}

#[test]
fn lowercase_ascii_only() {
    assert_eq!(to_ascii_lowercase("YeS Ä"), "yes Ä");
}

#[test]
fn splitting() {
    let cs: Vec<char> = "a=b=c".chars().collect();
    assert_eq!(find_first(&cs, '='), Some(1));
    assert_eq!(find_first(&cs, 'x'), None);
    assert_eq!(split_once("a=b=c", '='), Some(("a".to_string(), "b=c".to_string())));
    assert_eq!(split_once("abc", '='), None);
}

#[test]
fn compact_json_text() {
    let v = Json::object(vec![
        ("s".to_string(), Json::string("line\nnext \"q\" \\")),
        ("b".to_string(), Json::boolean(false)),
        ("n".to_string(), Json::Null),
        ("a".to_string(), Json::Array(vec![Json::integer(1), Json::integer(-2)])),
    ]);
    assert_eq!(
        compact_text(&v),
        "{\"s\":\"line\\nnext \\\"q\\\" \\\\\",\"b\":false,\"n\":null,\"a\":[1,-2]}"
    );
}

#[test]
fn string_escapes_follow_serde_json() {
    let v = Json::string("\u{8}\u{c}\t\r\n\u{1}\u{1f}\u{7f}é/\"\\");
    assert_eq!(compact_text(&v), "\"\\b\\f\\t\\r\\n\\u0001\\u001f\u{7f}é/\\\"\\\\\"");
}
