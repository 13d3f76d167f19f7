//! Tolerant readings of loosely typed wire values.
//!
//! Figshare emits some integer fields as numeric strings and some boolean
//! fields as `0`/`1` or as strings. These functions decide what such a wire
//! value means; a deserializer hands them the raw value it saw.

use crate::text::{
    chars_eq, chars_of, decimal, decimal_string, is_ws, lemma_lower_props, lemma_trim_noop, lower, lower_chars, parse_u64,
    parse_u64_chars, trim, trim_chars,
};
use vstd::prelude::*;

verus! {

/// The meaning of a boolean-like number: `0` is false, `1` is true, anything
/// else is rejected.
pub open spec fn boolish_number(v: int) -> Option<bool> {
    if v == 0 {
        Some(false)
    } else if v == 1 {
        Some(true)
    } else {
        None
    }
}

/// The meaning of a boolean-like string: after trimming whitespace and ASCII
/// lower-casing, `"true"` or `"1"` is true and `"false"` or `"0"` is false;
/// anything else is rejected.
pub open spec fn boolish_text(s: Seq<char>) -> Option<bool> {
    let t = lower(trim(s));
    if t == seq!['t', 'r', 'u', 'e'] || t == seq!['1'] {
        Some(true)
    } else if t == seq!['f', 'a', 'l', 's', 'e'] || t == seq!['0'] {
        Some(false)
    } else {
        None
    }
}

/// Boolean-like numbers: `1` reads as true, `0` as false, and every other
/// number is rejected; the strings `true` and `1` read as true and `false`
/// and `0` as false, in any ASCII case, and other words are rejected.
pub proof fn lemma_boolish_meanings(v: int)
    ensures
        boolish_number(v) == Some(true) <==> v == 1,
        boolish_number(v) == Some(false) <==> v == 0,
        boolish_number(v) is None <==> v != 0 && v != 1,
        boolish_text("true"@) == Some(true),
        boolish_text("TRUE"@) == Some(true),
        boolish_text("1"@) == Some(true),
        boolish_text("false"@) == Some(false),
        boolish_text("0"@) == Some(false),
        boolish_text("yes"@) is None,
{
    reveal_strlit("true");
    reveal_strlit("TRUE");
    reveal_strlit("1");
    reveal_strlit("false");
    reveal_strlit("0");
    reveal_strlit("yes");
    lemma_boolish_word("true"@);
    lemma_boolish_word("TRUE"@);
    lemma_boolish_word("1"@);
    lemma_boolish_word("false"@);
    lemma_boolish_word("0"@);
    lemma_boolish_word("yes"@);
    assert(lower("true"@) =~= seq!['t', 'r', 'u', 'e']);
    assert(lower("TRUE"@) =~= seq!['t', 'r', 'u', 'e']);
    assert(lower("1"@) =~= seq!['1']);
    assert(lower("false"@) =~= seq!['f', 'a', 'l', 's', 'e']);
    assert(lower("0"@) =~= seq!['0']);
    assert(lower("yes"@) =~= seq!['y', 'e', 's']);
}

proof fn lemma_boolish_word(s: Seq<char>)
    requires
        s.len() > 0 ==> !is_ws(s[0]) && !is_ws(s.last()),
    ensures
        boolish_text(s) == boolish_text(lower(s)),
        lower(trim(s)) == lower(s),
{
    lemma_trim_noop(s);
    lemma_lower_props(s);
    if s.len() > 0 {
        assert(!is_ws(lower(s)[0]) && !is_ws(lower(s).last()));
    }
    lemma_trim_noop(lower(s));
}

/// A boolean-like unsigned integer.
pub fn boolish_from_u64(value: u64) -> (r: Option<bool>)
    ensures
        r == boolish_number(value as int),
{
    if value == 0 {
        Some(false)
    } else if value == 1 {
        Some(true)
    } else {
        None
    }
}

/// A boolean-like signed integer.
pub fn boolish_from_i64(value: i64) -> (r: Option<bool>)
    ensures
        r == boolish_number(value as int),
{
    if value == 0 {
        Some(false)
    } else if value == 1 {
        Some(true)
    } else {
        None
    }
}

/// A boolean-like string.
pub fn boolish_from_str(value: &str) -> (r: Option<bool>)
    ensures
        r == boolish_text(value@),
{
    let t = lower_chars(&trim_chars(&chars_of(value)));
    let yes = ['t', 'r', 'u', 'e'];
    let no = ['f', 'a', 'l', 's', 'e'];
    let one = ['1'];
    let zero = ['0'];
    assert(yes@ =~= seq!['t', 'r', 'u', 'e']);
    assert(no@ =~= seq!['f', 'a', 'l', 's', 'e']);
    assert(one@ =~= seq!['1']);
    assert(zero@ =~= seq!['0']);
    if chars_eq(t.as_slice(), yes.as_slice()) || chars_eq(t.as_slice(), one.as_slice()) {
        Some(true)
    } else if chars_eq(t.as_slice(), no.as_slice()) || chars_eq(t.as_slice(), zero.as_slice()) {
        Some(false)
    } else {
        None
    }
}

/// A non-negative integer given as a signed value: rejected when negative.
pub fn u64ish_from_i64(value: i64) -> (r: Option<u64>)
    ensures
        r == (if value >= 0 { Some(value as u64) } else { None::<u64> }),
{
    if value >= 0 {
        Some(value as u64)
    } else {
        None
    }
}

/// A non-negative integer given as a string, read as `str::parse::<u64>`
/// reads it (no surrounding whitespace is allowed).
pub fn u64ish_from_str(value: &str) -> (r: Option<u64>)
    ensures
        r == parse_u64(value@),
{
    parse_u64_chars(&chars_of(value))
}

/// A string field given as an unsigned integer: its decimal rendering.
pub fn stringish_from_u64(value: u64) -> (r: String)
    ensures
        r@ == decimal(value as nat),
{
    decimal_string(value)
}

/// A string field given as a signed integer: its decimal rendering, rejected
/// when negative.
pub fn stringish_from_i64(value: i64) -> (r: Option<String>)
    ensures
        value >= 0 <==> r is Some,
        r matches Some(s) ==> s@ == decimal(value as nat),
{
    match u64ish_from_i64(value) {
        Some(v) => Some(decimal_string(v)),
        None => None,
    }
}

} // verus!
