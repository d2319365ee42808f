//! 16-bit CRCs computed by the `crc16` crate.

use vstd::prelude::*;

verus! {

/// CRC-16/ARC of `data` (poly 0x8005, reflected, initial value 0), as the
/// `crc16` crate computes it.
pub uninterp spec fn crc16_arc_of(data: Seq<u8>) -> u16;

/// CRC-16/XMODEM of `data` (poly 0x1021, initial value 0), as the `crc16`
/// crate computes it.
pub uninterp spec fn crc16_xmodem_of(data: Seq<u8>) -> u16;

/// Calls `crc16::State::<crc16::ARC>::calculate`. Claimed: the result is
/// the name [`crc16_arc_of`] of the bytes (the crate's function depends on
/// its argument alone).
#[verifier::external_body]
pub(crate) fn crc16_arc(data: &[u8]) -> (r: u16)
    ensures
        r == crc16_arc_of(data@),
{
    crc16::State::<crc16::ARC>::calculate(data)
}

/// Calls `crc16::State::<crc16::XMODEM>::calculate`. Claimed: the result is
/// the name [`crc16_xmodem_of`] of the bytes (the crate's function depends
/// on its argument alone).
#[verifier::external_body]
pub(crate) fn crc16_xmodem(data: &[u8]) -> (r: u16)
    ensures
        r == crc16_xmodem_of(data@),
{
    crc16::State::<crc16::XMODEM>::calculate(data)
}

} // verus!
