//! Scanners for the text replies of the modem.
//!
//! Each scanner looks at the input from a position and gives the position
//! where what it recognizes ends, or why it cannot: the input ends too early
//! (more input may complete it), or the input does not fit.

use vstd::prelude::*;
use crate::radio::{ErrorKind, ParseError};

verus! {

/// An exec scan result read as a position.
pub open spec fn as_pos(r: Result<usize, ParseError>) -> Result<int, ParseError> {
    match r {
        Ok(j) => Ok(j as int),
        Err(e) => Err(e),
    }
}

/// Whether `b` is whitespace: space, tab, CR or LF.
pub open spec fn is_space(b: u8) -> bool {
    b == 0x20 || b == 0x09 || b == 0x0d || b == 0x0a
}

/// The first index at or after `i` whose byte is not whitespace, or the
/// end of `s`.
pub open spec fn space_end(s: Seq<u8>, i: int) -> int
    decreases s.len() - i,
{
    if i >= s.len() {
        s.len() as int
    } else if is_space(s[i]) {
        space_end(s, i + 1)
    } else {
        i
    }
}

/// One or more whitespace bytes at `i`. Whitespace running to the end of
/// the input is incomplete.
pub open spec fn spaces_at(s: Seq<u8>, i: int) -> Result<int, ParseError> {
    let e = space_end(s, i);
    if e >= s.len() {
        Err(ParseError::Incomplete)
    } else if e == i {
        Err(ParseError::Error(ErrorKind::MultiSpace))
    } else {
        Ok(e)
    }
}

/// The byte `c` at `i`.
pub open spec fn char_at(s: Seq<u8>, i: int, c: u8) -> Result<int, ParseError> {
    if i >= s.len() {
        Err(ParseError::Incomplete)
    } else if s[i] == c {
        Ok(i + 1)
    } else {
        Err(ParseError::Error(ErrorKind::Char))
    }
}

/// What nom's `recognize_float` leaves of `input`: `Ok` with the length
/// of the input after the number it recognizes (an optional sign, digits
/// with an optional fraction or a `.` and digits, an optional exponent), or
/// why it recognizes none.
pub uninterp spec fn nom_float_rest(input: Seq<u8>) -> Result<usize, ParseError>;

/// A floating-point number at `i`, as nom's `recognize_float` finds it in
/// the rest of the input.
pub open spec fn float_at(s: Seq<u8>, i: int) -> Result<int, ParseError> {
    match nom_float_rest(s.subrange(i, s.len() as int)) {
        Ok(n) => Ok(s.len() - n),
        Err(e) => Err(e),
    }
}

/// Runs nom's `recognize_float` on `input`.
///
/// Calls `nom::recognize_float`. Claimed: the result is the name
/// [`nom_float_rest`] of the input; on success what is left is a part of
/// the input (nom hands back a suffix of its input), and every failure
/// other than running out of input is reported as an alternative that did
/// not fit (the one step of the parser that is not optional is an `alt!`).
#[verifier::external_body]
fn recognize_float_rest(input: &[u8]) -> (r: Result<usize, ParseError>)
    ensures
        r == nom_float_rest(input@),
        r matches Ok(n) ==> n <= input@.len(),
        r matches Err(ParseError::Error(k)) ==> k == ErrorKind::Alt,
{
    match nom::recognize_float(input) {
        Ok((rest, _)) => Ok(rest.len()),
        Err(nom::Err::Incomplete(_)) => Err(ParseError::Incomplete),
        Err(nom::Err::Error(_)) => Err(ParseError::Error(ErrorKind::Alt)),
        Err(nom::Err::Failure(_)) => Err(ParseError::Error(ErrorKind::Alt)),
    }
}

/// A scan that succeeds from `i` ends between `i` and the end of `s`.
pub open spec fn ends_within(r: Result<int, ParseError>, s: Seq<u8>, i: int) -> bool {
    r matches Ok(j) ==> i <= j <= s.len()
}

/// Index of the first byte at or after `i` that is not whitespace.
fn space_end_from(s: &[u8], i: usize) -> (r: usize)
    requires
        i <= s@.len(),
    ensures
        r == space_end(s@, i as int),
        i <= r <= s@.len(),
{
    let mut j: usize = i;
    while j < s.len() && (s[j] == 0x20 || s[j] == 0x09 || s[j] == 0x0d || s[j] == 0x0a)
        invariant
            i <= j <= s@.len(),
            space_end(s@, i as int) == space_end(s@, j as int),
        decreases s@.len() - j,
    {
        j = j + 1;
    }
    j
}

/// Whitespace at `i` (see [`spaces_at`]).
pub fn spaces(s: &[u8], i: usize) -> (r: Result<usize, ParseError>)
    requires
        i <= s@.len(),
    ensures
        as_pos(r) == spaces_at(s@, i as int),
        ends_within(as_pos(r), s@, i as int),
{
    let e: usize = space_end_from(s, i);
    if e >= s.len() {
        Err(ParseError::Incomplete)
    } else if e == i {
        Err(ParseError::Error(ErrorKind::MultiSpace))
    } else {
        Ok(e)
    }
}

/// The byte `c` at `i` (see [`char_at`]).
pub fn byte_is(s: &[u8], i: usize, c: u8) -> (r: Result<usize, ParseError>)
    requires
        i <= s@.len(),
    ensures
        as_pos(r) == char_at(s@, i as int, c),
        ends_within(as_pos(r), s@, i as int),
{
    if i >= s.len() {
        Err(ParseError::Incomplete)
    } else if s[i] == c {
        Ok(i + 1)
    } else {
        Err(ParseError::Error(ErrorKind::Char))
    }
}

/// A floating-point number at `i` (see [`float_at`]): the index where it
/// ends.
pub fn float_end(s: &[u8], i: usize) -> (r: Result<usize, ParseError>)
    requires
        i <= s@.len(),
    ensures
        as_pos(r) == float_at(s@, i as int),
        ends_within(as_pos(r), s@, i as int),
{
    match recognize_float_rest(vstd::slice::slice_subrange(s, i, s.len())) {
        Ok(n) => Ok(s.len() - n),
        Err(e) => Err(e),
    }
}

} // verus!
