use hookfreight::json::{to_json_text, JsonValue};
use hookfreight::pagination::{clamp, MAX_DELIVERIES_LIMIT, MAX_EVENTS_LIMIT};
use hookfreight::strutil::{collapse_double_slashes, i64_text, trim_trailing_slashes, u64_text};
use hookfreight::transport::normalize_path;

fn entry(key: &str, value: JsonValue) -> (String, JsonValue) {
    (key.to_string(), value)
}

fn query_of(params: Vec<(String, JsonValue)>, max: i64) -> Option<Vec<(String, String)>> {
    clamp(Some(&params), max)
}

#[test]
fn limit_above_maximum_is_clamped_down() {
    let q = query_of(vec![entry("limit", JsonValue::Int(5000))], MAX_DELIVERIES_LIMIT);
    assert_eq!(q, Some(vec![("limit".to_string(), "1000".to_string())]));
}

#[test]
fn limit_below_one_is_raised_to_one() {
    let q = query_of(vec![entry("limit", JsonValue::Int(0))], MAX_DELIVERIES_LIMIT);
    assert_eq!(q, Some(vec![("limit".to_string(), "1".to_string())]));
    let q = query_of(vec![entry("limit", JsonValue::Int(-7))], MAX_DELIVERIES_LIMIT);
    assert_eq!(q, Some(vec![("limit".to_string(), "1".to_string())]));
}

#[test]
fn limit_in_range_is_unchanged() {
    let q = query_of(vec![entry("limit", JsonValue::Int(25))], MAX_EVENTS_LIMIT);
    assert_eq!(q, Some(vec![("limit".to_string(), "25".to_string())]));
}

#[test]
fn events_maximum_is_fifty() {
    let q = query_of(vec![entry("limit", JsonValue::Int(5000))], MAX_EVENTS_LIMIT);
    assert_eq!(q, Some(vec![("limit".to_string(), "50".to_string())]));
}

#[test]
fn offset_below_zero_is_raised_to_zero() {
    let q = query_of(vec![entry("offset", JsonValue::Int(-3))], MAX_DELIVERIES_LIMIT);
    assert_eq!(q, Some(vec![("offset".to_string(), "0".to_string())]));
}

#[test]
fn offset_non_negative_is_unchanged() {
    let q = query_of(vec![entry("offset", JsonValue::Int(7))], MAX_DELIVERIES_LIMIT);
    assert_eq!(q, Some(vec![("offset".to_string(), "7".to_string())]));
}

#[test]
fn absent_params_yield_no_query() {
    assert_eq!(clamp(None, MAX_DELIVERIES_LIMIT), None);
}

#[test]
fn all_null_params_yield_no_query() {
    let q = query_of(
        vec![entry("limit", JsonValue::Null), entry("status", JsonValue::Null)],
        MAX_DELIVERIES_LIMIT,
    );
    assert_eq!(q, None);
}

#[test]
fn null_members_are_dropped_others_kept() {
    let q = query_of(
        vec![
            entry("status", JsonValue::Null),
            entry("cursor", JsonValue::Str("abc".to_string())),
        ],
        MAX_DELIVERIES_LIMIT,
    );
    assert_eq!(q, Some(vec![("cursor".to_string(), "abc".to_string())]));
}

#[test]
fn string_values_pass_verbatim() {
    let q = query_of(
        vec![entry("status", JsonValue::Str("pending".to_string()))],
        MAX_DELIVERIES_LIMIT,
    );
    assert_eq!(q, Some(vec![("status".to_string(), "pending".to_string())]));
}

#[test]
fn non_string_values_serialize_as_json() {
    let q = query_of(
        vec![
            entry("active", JsonValue::Bool(true)),
            entry("ids", JsonValue::Arr(vec![JsonValue::Int(1), JsonValue::Int(2)])),
        ],
        MAX_DELIVERIES_LIMIT,
    );
    assert_eq!(
        q,
        Some(vec![
            ("active".to_string(), "true".to_string()),
            ("ids".to_string(), "[1,2]".to_string()),
        ])
    );
}

#[test]
fn non_integer_limit_falls_through_to_generic_rendering() {
    let q = query_of(
        vec![entry("limit", JsonValue::Str("many".to_string()))],
        MAX_DELIVERIES_LIMIT,
    );
    assert_eq!(q, Some(vec![("limit".to_string(), "many".to_string())]));
}

#[test]
fn decimal_rendering_is_exact() {
    assert_eq!(u64_text(0), "0");
    assert_eq!(u64_text(907), "907");
    assert_eq!(i64_text(-123), "-123");
    assert_eq!(i64_text(i64::MIN), "-9223372036854775808");
    assert_eq!(i64_text(i64::MAX), "9223372036854775807");
}

#[test]
fn json_text_of_nested_value() {
    let v = JsonValue::Obj(vec![
        (
            "a".to_string(),
            JsonValue::Arr(vec![JsonValue::Int(1), JsonValue::Bool(true), JsonValue::Null]),
        ),
        ("s".to_string(), JsonValue::Str("q\"\\\n".to_string())),
    ]);
    assert_eq!(to_json_text(&v), "{\"a\":[1,true,null],\"s\":\"q\\\"\\\\\\n\"}");
}

#[test]
fn json_text_escapes_control_characters() {
    let v = JsonValue::Str("\u{1}\u{8}\u{c}\t\r".to_string());
    assert_eq!(to_json_text(&v), "\"\\u0001\\b\\f\\t\\r\"");
}

#[test]
fn json_text_of_empty_containers() {
    assert_eq!(to_json_text(&JsonValue::Arr(vec![])), "[]");
    assert_eq!(to_json_text(&JsonValue::Obj(vec![])), "{}");
}

#[test]
fn path_without_leading_slash_is_prefixed() {
    assert_eq!(normalize_path("apps/123"), "/apps/123");
}

#[test]
fn path_with_leading_slash_is_kept() {
    assert_eq!(normalize_path("/apps"), "/apps");
}

#[test]
fn doubled_slashes_are_replaced() {
    assert_eq!(normalize_path("/a//b"), "/a/b");
    assert_eq!(collapse_double_slashes("a//b"), "a/b");
    assert_eq!(collapse_double_slashes("//apps/123"), "/apps/123");
}

#[test]
fn trailing_slashes_are_trimmed() {
    assert_eq!(trim_trailing_slashes("https://x.test/v1/"), "https://x.test/v1");
    assert_eq!(trim_trailing_slashes("https://x.test/v1"), "https://x.test/v1");
    assert_eq!(trim_trailing_slashes("///"), "");
}
