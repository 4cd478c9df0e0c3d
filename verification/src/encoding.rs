//! Byte and text decodings that the library takes from std and from the
//! `base64` crate.
use vstd::prelude::*;

verus! {

/// What `base64::decode` (the crate's STANDARD engine: standard alphabet,
/// canonical padding required) gives for the UTF-8 bytes of a text: the
/// decoded bytes, or `None` where the crate reports a decode error.
pub uninterp spec fn base64_standard_decode(text: Seq<char>) -> Option<Seq<u8>>;

/// Calls `base64::decode` (STANDARD engine) on the bytes of `text`. Claimed:
/// the result is the named value `base64_standard_decode(text@)`, a function
/// of the text alone; an `Err` of the crate is handed back as `None`.
#[verifier::external_body]
#[allow(deprecated)]
pub(crate) fn base64_decode(text: &str) -> (res: Option<Vec<u8>>)
    ensures
        match res {
            Some(bytes) => base64_standard_decode(text@) == Some(bytes@),
            None => base64_standard_decode(text@) is None,
        },
{
    base64::decode(text).ok()
}

/// Calls `String::from_utf8`. Claimed, as std documents it: the bytes are
/// accepted exactly when they are valid UTF-8, and then the text holds the
/// characters they encode.
#[verifier::external_body]
pub(crate) fn utf8_text(bytes: Vec<u8>) -> (res: Option<String>)
    ensures
        res is Some <==> vstd::utf8::valid_utf8(bytes@),
        res matches Some(s) ==> s@ == vstd::utf8::decode_utf8(bytes@),
{
    String::from_utf8(bytes).ok()
}

/// Whether `c` is an ASCII decimal digit.
pub open spec fn is_decimal_digit(c: char) -> bool {
    48 <= (c as int) <= 57
}

/// The number a run of decimal digits denotes.
pub open spec fn decimal_value(digits: Seq<char>) -> int
    decreases digits.len(),
{
    if digits.len() == 0 {
        0
    } else {
        decimal_value(digits.drop_last()) * 10 + ((digits.last() as int) - 48)
    }
}

/// What `str::parse::<i32>` gives, as std documents `i32::from_str`: an
/// optional `+` or `-` sign followed by one or more decimal digits, whose
/// value must fit in an `i32`; anything else is an error.
pub open spec fn spec_parse_i32(s: Seq<char>) -> Option<i32> {
    let negative = s.len() > 0 && s[0] == '-';
    let digits = if s.len() > 0 && (s[0] == '-' || s[0] == '+') {
        s.drop_first()
    } else {
        s
    };
    if digits.len() > 0 && (forall|i: int| 0 <= i < digits.len() ==> is_decimal_digit(digits[i])) {
        let value = if negative {
            -decimal_value(digits)
        } else {
            decimal_value(digits)
        };
        if i32::MIN <= value <= i32::MAX {
            Some(value as i32)
        } else {
            None
        }
    } else {
        None
    }
}

/// Calls `str::parse::<i32>`. Claimed, as std documents it: the text parses
/// exactly when it is an optional sign and decimal digits whose value fits,
/// and then to that value; an error of std is handed back as `None`.
#[verifier::external_body]
pub(crate) fn parse_i32(text: &str) -> (res: Option<i32>)
    ensures
        res == spec_parse_i32(text@),
{
    text.parse::<i32>().ok()
}

} // verus!
