//! The 32-bit CRC that frames every binary OEM6 message (reflected
//! polynomial 0xEDB88320, initial value 0, no final inversion).

use vstd::prelude::*;
use crate::bytes::le_bytes_u32;

verus! {

/// Reflected CRC-32 polynomial.
pub const CRC32_POLY: u32 = 0xEDB8_8320;

/// One shift of the bitwise CRC register.
pub open spec fn crc_shift(crc: u32) -> u32 {
    if crc & 1 == 1 {
        (crc >> 1) ^ CRC32_POLY
    } else {
        crc >> 1
    }
}

/// The register after `n` shifts starting from `crc`.
pub open spec fn crc_shifts(crc: u32, n: nat) -> u32
    decreases n,
{
    if n == 0 {
        crc
    } else {
        crc_shift(crc_shifts(crc, (n - 1) as nat))
    }
}

/// Table value of a byte: eight shifts of the byte's value.
pub open spec fn crc_byte_value(val: u8) -> u32 {
    crc_shifts(val as u32, 8)
}

/// The CRC register after feeding `crc` one more byte.
pub open spec fn crc_feed(crc: u32, byte: u8) -> u32 {
    crc_byte_value((crc ^ (byte as u32)) as u8) ^ (crc >> 8)
}

/// The register after feeding the bytes of `msg`, first to last, to a
/// register that held `init`.
pub open spec fn crc32_from(init: u32, msg: Seq<u8>) -> u32
    decreases msg.len(),
{
    if msg.len() == 0 {
        init
    } else {
        crc_feed(crc32_from(init, msg.drop_last()), msg.last())
    }
}

/// CRC of a whole message, bytes fed first to last from a zero register.
pub open spec fn crc32_of(msg: Seq<u8>) -> u32 {
    crc32_from(0, msg)
}

/// Feeding `a` and then `b` is feeding `a + b`.
pub proof fn lemma_crc_from_concat(init: u32, a: Seq<u8>, b: Seq<u8>)
    ensures
        crc32_from(init, a + b) == crc32_from(crc32_from(init, a), b),
    decreases b.len(),
{
    if b.len() == 0 {
        assert(a + b =~= a);
    } else {
        lemma_crc_from_concat(init, a, b.drop_last());
        assert((a + b).drop_last() =~= a + b.drop_last());
        assert((a + b).last() == b.last());
    }
}

/// Shifting a zero register leaves it zero.
proof fn lemma_crc_shifts_zero(n: nat)
    ensures
        crc_shifts(0, n) == 0,
    decreases n,
{
    if n > 0 {
        lemma_crc_shifts_zero((n - 1) as nat);
        assert(0u32 & 1 == 0 && 0u32 >> 1 == 0) by (bit_vector);
    }
}

/// Feeding a register its own low byte shifts that byte out.
proof fn lemma_crc_feed_low_byte(r: u32, b: u8)
    requires
        b == r % 256,
    ensures
        crc_feed(r, b) == r / 256,
{
    lemma_crc_shifts_zero(8);
    assert((r ^ (b as u32)) as u8 == 0 && 0u32 ^ (r >> 8) == r / 256) by (bit_vector)
        requires
            b == r % 256,
    ;
}

/// Feeding zero bytes to a zero register leaves it zero.
proof fn lemma_crc_zeros(k: nat)
    ensures
        crc32_from(0, Seq::new(k, |i: int| 0u8)) == 0,
    decreases k,
{
    if k > 0 {
        lemma_crc_zeros((k - 1) as nat);
        assert(Seq::new(k, |i: int| 0u8).drop_last() =~= Seq::new((k - 1) as nat, |i: int| 0u8));
        lemma_crc_feed_low_byte(0, 0);
    }
}

/// A message followed by its own CRC, least significant byte first, has
/// CRC zero: this is how a receiver checks a frame.
pub proof fn lemma_crc_of_framed_is_zero(m: Seq<u8>)
    ensures
        crc32_of(m + le_bytes_u32(crc32_of(m))) == 0,
{
    let c = crc32_of(m);
    let t = le_bytes_u32(c);
    lemma_crc_from_concat(0, m, t);
    let r1: u32 = c / 256;
    let r2: u32 = r1 / 256;
    let r3: u32 = r2 / 256;
    lemma_crc_feed_low_byte(c, t[0]);
    lemma_crc_feed_low_byte(r1, t[1]);
    lemma_crc_feed_low_byte(r2, t[2]);
    lemma_crc_feed_low_byte(r3, t[3]);
    let t1 = t.drop_last().drop_last().drop_last();
    assert(t1 =~= seq![t[0]]);
    assert(t1.drop_last() =~= Seq::<u8>::empty());
    assert(crc32_from(c, t1.drop_last()) == c);
    assert(t1.last() == t[0]);
    assert(crc32_from(c, t1) == r1);
    assert(crc32_from(c, t.drop_last().drop_last()) == r2);
    assert(crc32_from(c, t.drop_last()) == r3);
    assert(crc32_from(c, t) == 0);
}

/// Zero bytes in front of a message do not change its CRC.
pub proof fn lemma_crc_leading_zeros(k: nat, m: Seq<u8>)
    ensures
        crc32_of(Seq::new(k, |i: int| 0u8) + m) == crc32_of(m),
{
    lemma_crc_from_concat(0, Seq::new(k, |i: int| 0u8), m);
    lemma_crc_zeros(k);
}

/// A computed CRC value.
pub struct CRC32(pub u32);

impl CRC32 {
    /// Table value of one byte.
    pub fn calc_val(&self, val: u8) -> (r: u32)
        ensures
            r == crc_byte_value(val),
    {
        let mut crc: u32 = val as u32;
        let mut i: u32 = 0;
        while i < 8
            invariant
                i <= 8,
                crc == crc_shifts(val as u32, i as nat),
            decreases 8 - i,
        {
            if crc & 1 == 1 {
                crc = (crc >> 1) ^ CRC32_POLY;
            } else {
                crc = crc >> 1;
            }
            i = i + 1;
        }
        crc
    }

    /// CRC of `msg`.
    pub fn calc_crc(&self, msg: &[u8]) -> (r: CRC32)
        ensures
            r.0 == crc32_of(msg@),
    {
        let mut crc: u32 = 0;
        let mut i: usize = 0;
        while i < msg.len()
            invariant
                i <= msg@.len(),
                crc == crc32_of(msg@.subrange(0, i as int)),
            decreases msg.len() - i,
        {
            proof {
                assert(msg@.subrange(0, i + 1).drop_last() =~= msg@.subrange(0, i as int));
            }
            let val1: u32 = crc >> 8;
            let arg: u32 = crc ^ (msg[i] as u32);
            let val2: u32 = self.calc_val(arg as u8);
            crc = val2 ^ val1;
            i = i + 1;
        }
        assert(msg@.subrange(0, msg@.len() as int) =~= msg@);
        CRC32(crc)
    }
}

} // verus!
