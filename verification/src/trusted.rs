//! What is taken on trust of outside crates.

use crate::text::utf16_text;
use vstd::prelude::*;

verus! {

/// `constant_time_eq::constant_time_eq_32` returns whether its two arguments
/// hold the same 32 bytes.
pub assume_specification[ constant_time_eq::constant_time_eq_32 ](
    a: &[u8; 32],
    b: &[u8; 32],
) -> (same: bool)
    ensures
        same == (a@ == b@),
;

/// Calls `getrandom::fill`, which overwrites `dest` with random bytes of the
/// operating system and tells whether it could. Nothing is claimed of the
/// bytes, nor of what `dest` holds after a failure.
#[verifier::external_body]
pub(crate) fn random_fill(dest: &mut [u8; 1]) -> (filled: bool) {
    getrandom::fill(dest).is_ok()
}

/// Calls `String::from_utf16`, which decodes UTF-16 and fails on code units
/// that are not well-formed UTF-16: on a surrogate without its counterpart.
#[verifier::external_body]
pub(crate) fn from_utf16(units: &[u16]) -> (text: Option<String>)
    ensures
        match text {
            Some(text) => utf16_text(units@) == Some(text@),
            None => utf16_text(units@) is None,
        },
{
    String::from_utf16(units).ok()
}

} // verus!
