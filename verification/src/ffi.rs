//! Decoding the bytes of LibPQ's null-terminated strings into Rust strings.
//!
//! The caller reads the bytes in front of the terminating null (what
//! `CStr::to_bytes` gives); these functions decide what becomes of them.

use vstd::prelude::*;
use vstd::utf8::*;

verus! {

/// What `String::from_utf8_lossy` makes of `bytes`: every invalid sequence is
/// replaced by U+FFFD.
pub uninterp spec fn utf8_lossy(bytes: Seq<u8>) -> Seq<char>;

/// Calls `std::str::from_utf8`: its documentation says that it succeeds
/// exactly on valid UTF-8, and then yields the decoded characters.
#[verifier::external_body]
fn decode_utf8_strict(bytes: &[u8]) -> (r: Option<String>)
    ensures
        r is Some <==> valid_utf8(bytes@),
        r matches Some(s) ==> s@ == decode_utf8(bytes@),
{
    match std::str::from_utf8(bytes) {
        Ok(s) => Some(s.to_string()),
        Err(_) => None,
    }
}

/// Calls `String::from_utf8_lossy`. Its result is named by [`utf8_lossy`];
/// its documentation says that valid UTF-8 comes back decoded as it is. How
/// invalid sequences are replaced is left unsaid here.
#[verifier::external_body]
fn decode_utf8_lossy(bytes: &[u8]) -> (r: String)
    ensures
        r@ == utf8_lossy(bytes@),
        valid_utf8(bytes@) ==> r@ == decode_utf8(bytes@),
{
    String::from_utf8_lossy(bytes).into_owned()
}

/// Converts the bytes of a "C" string into a Rust [`String`], replacing
/// invalid UTF-8 sequences.
pub fn to_string_lossy(bytes: &[u8]) -> (r: String)
    ensures
        r@ == utf8_lossy(bytes@),
        valid_utf8(bytes@) ==> r@ == decode_utf8(bytes@),
{
    decode_utf8_lossy(bytes)
}

/// Attempts to convert the bytes of a "C" string into a Rust [`String`],
/// failing with `"Error decoding UTF-8 string"` on invalid UTF-8.
pub fn to_string(bytes: &[u8]) -> (r: Result<String, String>)
    ensures
        r is Ok <==> valid_utf8(bytes@),
        r matches Ok(s) ==> s@ == decode_utf8(bytes@),
        r matches Err(e) ==> e@ == "Error decoding UTF-8 string"@,
{
    match decode_utf8_strict(bytes) {
        Some(s) => Ok(s),
        None => Err(String::from_str("Error decoding UTF-8 string")),
    }
}

} // verus!
