//! NSL EyeStar-D2 duplex radio: reply parsers, the file transfer format
//! and the geolocation record.
//!
//! Every reply of the modem starts with `GU`; parsers skip anything before
//! the first `GU`.

pub mod decimal;
pub mod file;
pub mod geo;
pub mod link;
pub mod scan;

use vstd::prelude::*;
use crate::bytes::{be_u32_at, read_be_u32};
use crate::radio::{ErrorKind, ParseError, ParseResult};

verus! {

/// Index of the first `GU` in `s` at or after `i`.
pub open spec fn gu_from(s: Seq<u8>, i: int) -> Option<int>
    decreases s.len() - i,
{
    if i < 0 || i + 2 > s.len() {
        None
    } else if s[i] == 0x47 && s[i + 1] == 0x55 {
        Some(i)
    } else {
        gu_from(s, i + 1)
    }
}

/// Index just after the first `GU` in `s`.
pub open spec fn after_gu(s: Seq<u8>) -> Option<int> {
    match gu_from(s, 0) {
        Some(i) => Some(i + 2),
        None => None,
    }
}

/// Index just after the first `GU` in `input`, if there is one.
pub fn skip_to_gu(input: &[u8]) -> (r: Option<usize>)
    ensures
        r matches Some(k) ==> after_gu(input@) == Some(k as int) && 2 <= k <= input@.len(),
        r is None ==> after_gu(input@) is None,
{
    let n: usize = input.len();
    if n < 2 {
        return None;
    }
    let mut i: usize = 0;
    while i < n - 1
        invariant
            n == input@.len(),
            n >= 2,
            0 <= i <= n - 1,
            gu_from(input@, 0) == gu_from(input@, i as int),
        decreases n - i,
    {
        if input[i] == 0x47 && input[i + 1] == 0x55 {
            return Some(i + 2);
        }
        i = i + 1;
    }
    None
}

/// Reads a reply holding a big-endian `u32` after `GU`.
pub fn parse_u32(input: &[u8]) -> (r: ParseResult<u32>)
    ensures
        match after_gu(input@) {
            None => r == Err::<(&[u8], u32), ParseError>(ParseError::Incomplete),
            Some(k) => if input@.len() < k + 4 {
                r == Err::<(&[u8], u32), ParseError>(ParseError::Incomplete)
            } else {
                r matches Ok((rest, v)) && v == be_u32_at(input@, k) && rest@ == input@.subrange(
                    k + 4,
                    input@.len() as int,
                )
            },
        },
{
    let k: usize = match skip_to_gu(input) {
        Some(k) => k,
        None => {
            return Err(ParseError::Incomplete);
        },
    };
    if input.len() - k < 4 {
        return Err(ParseError::Incomplete);
    }
    let v: u32 = read_be_u32(input, k);
    Ok((vstd::slice::slice_subrange(input, k + 4, input.len()), v))
}

/// ACK code
pub const ACK: u8 = 0x06;

/// NAK code
pub const NAK: u8 = 0x0f;

/// Reads a reply holding an ACK (`true`) or NAK (`false`) after `GU`.
pub fn parse_ack_or_nak(input: &[u8]) -> (r: ParseResult<bool>)
    ensures
        match after_gu(input@) {
            None => r == Err::<(&[u8], bool), ParseError>(ParseError::Incomplete),
            Some(k) => if input@.len() < k + 1 {
                r == Err::<(&[u8], bool), ParseError>(ParseError::Incomplete)
            } else if input@[k] == ACK || input@[k] == NAK {
                r matches Ok((rest, v)) && v == (input@[k] == ACK) && rest@ == input@.subrange(
                    k + 1,
                    input@.len() as int,
                )
            } else {
                r == Err::<(&[u8], bool), ParseError>(ParseError::Error(ErrorKind::OneOf))
            },
        },
{
    let k: usize = match skip_to_gu(input) {
        Some(k) => k,
        None => {
            return Err(ParseError::Incomplete);
        },
    };
    if input.len() - k < 1 {
        return Err(ParseError::Incomplete);
    }
    let code: u8 = input[k];
    if code == ACK || code == NAK {
        Ok((vstd::slice::slice_subrange(input, k + 1, input.len()), code == ACK))
    } else {
        Err(ParseError::Error(ErrorKind::OneOf))
    }
}

} // verus!
