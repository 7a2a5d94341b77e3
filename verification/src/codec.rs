//! The text codec behind the sample value types: ron. A bare unsigned
//! integer is written as its decimal digits; parsing is ron's and accepts
//! more spellings than the canonical one, so what a text decodes to is
//! named rather than spelled out.

use vstd::prelude::*;

verus! {

/// The decimal digit for `d`; meaningful for `d < 10`.
pub open spec fn digit_char(d: nat) -> char {
    if d == 0 {
        '0'
    } else if d == 1 {
        '1'
    } else if d == 2 {
        '2'
    } else if d == 3 {
        '3'
    } else if d == 4 {
        '4'
    } else if d == 5 {
        '5'
    } else if d == 6 {
        '6'
    } else if d == 7 {
        '7'
    } else if d == 8 {
        '8'
    } else {
        '9'
    }
}

/// The decimal digits of `v`, most significant first, no sign and no
/// leading zero.
pub open spec fn decimal_digits(v: nat) -> Seq<char>
    decreases v,
{
    if v < 10 {
        seq![digit_char(v)]
    } else {
        decimal_digits(v / 10).push(digit_char(v % 10))
    }
}

/// What ron parses a text to when asked for a `u32`.
pub uninterp spec fn ron_u32(text: Seq<char>) -> Option<u32>;

/// Relies on ron::ser::to_string_pretty: with the default configuration a
/// bare `u32` is written as its decimal digits and nothing else, and
/// ron::from_str parses those digits back to the same value. Serializing an
/// integer to a string cannot fail, so the error arm is never taken.
#[verifier::external_body]
pub(crate) fn ron_encode_u32(v: u32) -> (text: String)
    ensures
        text@ == decimal_digits(v as nat),
        ron_u32(text@) == Some(v),
{
    match ron::ser::to_string_pretty(&v, ron::ser::PrettyConfig::new()) {
        Ok(text) => text,
        Err(_) => String::new(),
    }
}

/// Relies on ron::from_str::<u32>: the result is a function of the text
/// alone, and the decimal digits of a value parse back to that value.
#[verifier::external_body]
pub(crate) fn ron_decode_u32(text: &str) -> (r: Option<u32>)
    ensures
        r == ron_u32(text@),
        forall|v: u32| text@ == decimal_digits(v as nat) ==> r == Some(v),
{
    ron::from_str::<u32>(text).ok()
}

} // verus!
