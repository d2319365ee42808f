//! Text carried in byte fields of device messages.

use vstd::prelude::*;
use vstd::utf8::{decode_utf8, valid_utf8};

verus! {

/// The text that `bytes` reads as, each ill-formed sequence replaced by
/// U+FFFD (std's `String::from_utf8_lossy`).
pub uninterp spec fn utf8_lossy(bytes: Seq<u8>) -> Seq<char>;

/// `s` without its trailing NUL characters.
pub open spec fn trim_trailing_nul(s: Seq<char>) -> Seq<char>
    decreases s.len(),
{
    if s.len() > 0 && s.last() == '\u{0}' {
        trim_trailing_nul(s.drop_last())
    } else {
        s
    }
}

/// Reads `bytes` as UTF-8 text, replacing ill-formed sequences.
///
/// Calls `String::from_utf8_lossy`. Claimed: the result is the name
/// [`utf8_lossy`] of the bytes, and, as std documents, well-formed UTF-8 is
/// decoded unchanged.
#[verifier::external_body]
pub(crate) fn lossy_string(bytes: &[u8]) -> (r: String)
    ensures
        r@ == utf8_lossy(bytes@),
        valid_utf8(bytes@) ==> r@ == decode_utf8(bytes@),
{
    String::from_utf8_lossy(bytes).into_owned()
}

/// Removes trailing NUL characters.
///
/// Calls `str::trim_end_matches('\0')`. Claimed: the result is the text
/// without its trailing NUL characters, as std documents.
#[verifier::external_body]
pub(crate) fn trim_nul(s: &str) -> (r: String)
    ensures
        r@ == trim_trailing_nul(s@),
{
    s.trim_end_matches('\u{0}').to_owned()
}

/// What std's `Utf8Error` says, when displayed, of ill-formed UTF-8 bytes
/// (where the first bad sequence starts and how long it is).
pub uninterp spec fn utf8_error_text(bytes: Seq<u8>) -> Seq<char>;

/// Reads `bytes` as UTF-8 text; when they are not well-formed, gives the
/// displayed error instead.
///
/// Calls `std::str::from_utf8`. Claimed, as std documents: it succeeds
/// exactly on well-formed UTF-8, and then the text has those bytes; the
/// error text is the name [`utf8_error_text`] of the bytes.
#[verifier::external_body]
pub(crate) fn utf8_text(bytes: &[u8]) -> (r: Result<String, String>)
    ensures
        r is Ok <==> valid_utf8(bytes@),
        r matches Ok(s) ==> s@ == decode_utf8(bytes@),
        r matches Err(e) ==> e@ == utf8_error_text(bytes@),
{
    match std::str::from_utf8(bytes) {
        Ok(s) => Ok(s.to_owned()),
        Err(e) => Err(e.to_string()),
    }
}

/// `a` followed by `b`.
///
/// Calls `format!("{}{}", a, b)`. Claimed, as std documents for the
/// display of `str`: the result is the characters of `a`, then those of `b`.
#[verifier::external_body]
pub(crate) fn join_text(a: &str, b: &str) -> (r: String)
    ensures
        r@ == a@ + b@,
{
    format!("{}{}", a, b)
}

/// Text read from a fixed-width byte field: lossy UTF-8, trailing NULs
/// removed.
pub open spec fn field_text(bytes: Seq<u8>) -> Seq<char> {
    trim_trailing_nul(utf8_lossy(bytes))
}

/// Text of the bytes `b[i..j]` (see [`field_text`]).
pub fn field_string(b: &[u8], i: usize, j: usize) -> (r: String)
    requires
        i <= j <= b@.len(),
    ensures
        r@ == field_text(b@.subrange(i as int, j as int)),
{
    let s: String = lossy_string(vstd::slice::slice_subrange(b, i, j));
    trim_nul(s.as_str())
}

} // verus!
