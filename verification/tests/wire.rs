use figshare_rs::wire::{
    boolish_from_i64, boolish_from_str, boolish_from_u64, stringish_from_i64, stringish_from_u64, u64ish_from_i64,
    u64ish_from_str,
};

#[test]
fn u64ish_accepts_integer_like_values() {
    assert_eq!(u64ish_from_i64(12), Some(12));
    assert_eq!(u64ish_from_str("14"), Some(14));
}

#[test]
fn optional_u64ish_handles_none_and_values() {
    assert_eq!(u64ish_from_str("15"), Some(15));
}

#[test]
fn stringish_accepts_strings_and_integer_like_numbers() {
    assert_eq!(stringish_from_u64(16), "16");
}

#[test]
fn boolish_accepts_bool_numeric_and_string_values() {
    assert_eq!(boolish_from_u64(1), Some(true));
    assert_eq!(boolish_from_str("false"), Some(false));
}

#[test]
fn optional_boolish_handles_none_and_values() {
    assert_eq!(boolish_from_str("1"), Some(true));
}

#[test]
fn u64ish_rejects_invalid_values() {
    assert_eq!(u64ish_from_i64(-1), None);
    assert_eq!(u64ish_from_str("nope"), None);
    assert_eq!(u64ish_from_str("1.25"), None);
}

#[test]
fn optional_u64ish_handles_null_and_invalid_values() {
    assert_eq!(u64ish_from_i64(-2), None);
}

#[test]
fn stringish_covers_integer_and_invalid_negative_values() {
    assert_eq!(stringish_from_u64(17), "17");
    assert_eq!(stringish_from_i64(-1), None);
    assert_eq!(stringish_from_i64(18).as_deref(), Some("18"));
}

#[test]
fn boolish_rejects_invalid_numeric_and_string_values() {
    assert_eq!(boolish_from_u64(2), None);
    assert_eq!(boolish_from_str("yes"), None);
}

#[test]
fn optional_boolish_handles_null_and_invalid_values() {
    assert_eq!(boolish_from_i64(2), None);
    assert_eq!(boolish_from_i64(-1), None);
    assert_eq!(boolish_from_i64(0), Some(false));
}

#[test]
fn boolish_strings_are_trimmed_and_case_insensitive() {
    assert_eq!(boolish_from_str("  TRUE \n"), Some(true));
    assert_eq!(boolish_from_str(" False"), Some(false));
    assert_eq!(boolish_from_str(" 0 "), Some(false));
    assert_eq!(boolish_from_str(""), None);
}

#[test]
fn u64ish_strings_follow_integer_parsing() {
    assert_eq!(u64ish_from_str("+7"), Some(7));
    assert_eq!(u64ish_from_str(" 7"), None);
    assert_eq!(u64ish_from_str("18446744073709551615"), Some(u64::MAX));
    assert_eq!(u64ish_from_str("18446744073709551616"), None);
    assert_eq!(u64ish_from_str(""), None);
    assert_eq!(stringish_from_u64(u64::MAX), "18446744073709551615");
}
