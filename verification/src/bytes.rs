//! Fixed-width integers laid out in byte sequences, and byte sums.

use vstd::prelude::*;

verus! {

/// Little-endian value of the two bytes of `s` starting at `off`.
pub open spec fn le_u16_at(s: Seq<u8>, off: int) -> u16 {
    (s[off] as int + 256 * s[off + 1] as int) as u16
}

/// Little-endian value of the four bytes of `s` starting at `off`.
pub open spec fn le_u32_at(s: Seq<u8>, off: int) -> u32 {
    (s[off] as int + 256 * s[off + 1] as int + 65536 * s[off + 2] as int + 16777216 * s[off
        + 3] as int) as u32
}

/// Little-endian value of the eight bytes of `s` starting at `off`.
pub open spec fn le_u64_at(s: Seq<u8>, off: int) -> u64 {
    (le_u32_at(s, off) as int + 4294967296 * le_u32_at(s, off + 4) as int) as u64
}

/// Big-endian value of the four bytes of `s` starting at `off`.
pub open spec fn be_u32_at(s: Seq<u8>, off: int) -> u32 {
    (16777216 * s[off] as int + 65536 * s[off + 1] as int + 256 * s[off + 2] as int + s[off
        + 3] as int) as u32
}

/// The two bytes of `x`, least significant first.
pub open spec fn le_bytes_u16(x: u16) -> Seq<u8> {
    seq![(x % 256) as u8, (x / 256) as u8]
}

/// The four bytes of `x`, least significant first.
pub open spec fn le_bytes_u32(x: u32) -> Seq<u8> {
    seq![(x % 256) as u8, ((x / 256) % 256) as u8, ((x / 65536) % 256) as u8, (x / 16777216) as u8]
}

/// The eight bytes of `x`, least significant first.
pub open spec fn le_bytes_u64(x: u64) -> Seq<u8> {
    le_bytes_u32((x % 4294967296) as u32) + le_bytes_u32((x / 4294967296) as u32)
}

/// Sum of all the bytes of `s`.
pub open spec fn byte_sum(s: Seq<u8>) -> nat
    decreases s.len(),
{
    if s.len() == 0 {
        0
    } else {
        byte_sum(s.drop_last()) + s.last() as nat
    }
}

/// Two bytes holding the little-endian encoding of `x` read back as `x`.
pub proof fn lemma_le_u16_of(s: Seq<u8>, off: int, x: u16)
    requires
        0 <= off,
        off + 2 <= s.len(),
        s[off] == (x % 256) as u8,
        s[off + 1] == (x / 256) as u8,
    ensures
        le_u16_at(s, off) == x,
{
}

/// Four bytes holding the little-endian encoding of `x` read back as `x`.
pub proof fn lemma_le_u32_of(s: Seq<u8>, off: int, x: u32)
    requires
        0 <= off,
        off + 4 <= s.len(),
        s[off] == (x % 256) as u8,
        s[off + 1] == ((x / 256) % 256) as u8,
        s[off + 2] == ((x / 65536) % 256) as u8,
        s[off + 3] == (x / 16777216) as u8,
    ensures
        le_u32_at(s, off) == x,
{
}

/// Reading back the encoding of a `u32` gives the value.
pub proof fn lemma_le_u32_roundtrip(x: u32, pre: Seq<u8>, post: Seq<u8>)
    ensures
        le_u32_at(pre + le_bytes_u32(x) + post, pre.len() as int) == x,
{
    let s = pre + le_bytes_u32(x) + post;
    let p = pre.len() as int;
    assert(s[p] == (x % 256) as u8);
    assert(s[p + 1] == ((x / 256) % 256) as u8);
    assert(s[p + 2] == ((x / 65536) % 256) as u8);
    assert(s[p + 3] == (x / 16777216) as u8);
    lemma_le_u32_of(s, p, x);
}

/// Reading back the encoding of a `u16` gives the value.
pub proof fn lemma_le_u16_roundtrip(x: u16, pre: Seq<u8>, post: Seq<u8>)
    ensures
        le_u16_at(pre + le_bytes_u16(x) + post, pre.len() as int) == x,
{
    let s = pre + le_bytes_u16(x) + post;
    let p = pre.len() as int;
    assert(s[p] == (x % 256) as u8);
    assert(s[p + 1] == (x / 256) as u8);
    lemma_le_u16_of(s, p, x);
}

/// Reading back the encoding of a `u64` gives the value.
pub proof fn lemma_le_u64_roundtrip(x: u64, pre: Seq<u8>, post: Seq<u8>)
    ensures
        le_u64_at(pre + le_bytes_u64(x) + post, pre.len() as int) == x,
{
    let lo = (x % 4294967296) as u32;
    let hi = (x / 4294967296) as u32;
    let s = pre + le_bytes_u64(x) + post;
    assert(s =~= pre + le_bytes_u32(lo) + (le_bytes_u32(hi) + post));
    lemma_le_u32_roundtrip(lo, pre, le_bytes_u32(hi) + post);
    assert(s =~= (pre + le_bytes_u32(lo)) + le_bytes_u32(hi) + post);
    lemma_le_u32_roundtrip(hi, pre + le_bytes_u32(lo), post);
    assert(x == lo + 4294967296 * hi);
}

/// The little-endian `u16` at `off` in `b`.
pub fn read_le_u16(b: &[u8], off: usize) -> (r: u16)
    requires
        off + 2 <= b@.len(),
    ensures
        r == le_u16_at(b@, off as int),
{
    b[off] as u16 + 256 * (b[off + 1] as u16)
}

/// The little-endian `u32` at `off` in `b`.
pub fn read_le_u32(b: &[u8], off: usize) -> (r: u32)
    requires
        off + 4 <= b@.len(),
    ensures
        r == le_u32_at(b@, off as int),
{
    b[off] as u32 + 256 * (b[off + 1] as u32) + 65536 * (b[off + 2] as u32) + 16777216 * (b[off
        + 3] as u32)
}

/// The little-endian `u64` at `off` in `b`.
pub fn read_le_u64(b: &[u8], off: usize) -> (r: u64)
    requires
        off + 8 <= b@.len(),
    ensures
        r == le_u64_at(b@, off as int),
{
    let _n: usize = b.len();
    let lo: u32 = read_le_u32(b, off);
    let hi: u32 = read_le_u32(b, off + 4);
    lo as u64 + 4294967296 * (hi as u64)
}

/// The big-endian `u32` at `off` in `b`.
pub fn read_be_u32(b: &[u8], off: usize) -> (r: u32)
    requires
        off + 4 <= b@.len(),
    ensures
        r == be_u32_at(b@, off as int),
{
    16777216 * (b[off] as u32) + 65536 * (b[off + 1] as u32) + 256 * (b[off + 2] as u32) + b[off
        + 3] as u32
}

/// Appends the little-endian bytes of `x`.
pub fn push_le_u16(v: &mut Vec<u8>, x: u16)
    ensures
        final(v)@ == old(v)@ + le_bytes_u16(x),
{
    v.push((x % 256) as u8);
    v.push((x / 256) as u8);
}

/// Appends the little-endian bytes of `x`.
pub fn push_le_u32(v: &mut Vec<u8>, x: u32)
    ensures
        final(v)@ == old(v)@ + le_bytes_u32(x),
{
    v.push((x % 256) as u8);
    v.push(((x / 256) % 256) as u8);
    v.push(((x / 65536) % 256) as u8);
    v.push((x / 16777216) as u8);
}

/// Appends the little-endian bytes of `x`.
pub fn push_le_u64(v: &mut Vec<u8>, x: u64)
    ensures
        final(v)@ == old(v)@ + le_bytes_u64(x),
{
    push_le_u32(v, (x % 4294967296) as u32);
    push_le_u32(v, (x / 4294967296) as u32);
}

/// Appends the bytes of `s`.
pub fn push_all(v: &mut Vec<u8>, s: &[u8])
    ensures
        final(v)@ == old(v)@ + s@,
{
    let ghost start = v@;
    let mut i: usize = 0;
    while i < s.len()
        invariant
            i <= s@.len(),
            v@ == start + s@.subrange(0, i as int),
        decreases s@.len() - i,
    {
        v.push(s[i]);
        i = i + 1;
        assert(s@.subrange(0, i as int) =~= s@.subrange(0, i - 1).push(s@[i - 1]));
    }
    assert(s@.subrange(0, s@.len() as int) =~= s@);
}

/// Appends `n` zero bytes.
pub fn push_zeros(v: &mut Vec<u8>, n: usize)
    ensures
        final(v)@ == old(v)@ + Seq::new(n as nat, |i: int| 0u8),
{
    let ghost start = v@;
    let mut i: usize = 0;
    while i < n
        invariant
            i <= n,
            v@ == start + Seq::new(i as nat, |k: int| 0u8),
        decreases n - i,
    {
        v.push(0);
        i = i + 1;
    }
}

/// Sum of the bytes of `b`, when it fits in a `u16`.
pub fn checksum16(b: &[u8]) -> (r: u16)
    requires
        byte_sum(b@) <= u16::MAX,
    ensures
        r == byte_sum(b@),
{
    let mut sum: u16 = 0;
    let mut i: usize = 0;
    while i < b.len()
        invariant
            i <= b@.len(),
            byte_sum(b@) <= u16::MAX,
            sum == byte_sum(b@.subrange(0, i as int)),
        decreases b.len() - i,
    {
        proof {
            lemma_byte_sum_prefix_mono(b@, i as int + 1);
            assert(b@.subrange(0, i + 1).drop_last() =~= b@.subrange(0, i as int));
        }
        sum = sum + b[i] as u16;
        i = i + 1;
    }
    assert(b@.subrange(0, b@.len() as int) =~= b@);
    sum
}

/// The sum of a prefix is at most the sum of the whole.
pub proof fn lemma_byte_sum_prefix_mono(s: Seq<u8>, n: int)
    requires
        0 <= n <= s.len(),
    ensures
        byte_sum(s.subrange(0, n)) <= byte_sum(s),
    decreases s.len(),
{
    if n < s.len() {
        assert(s.drop_last().subrange(0, n) =~= s.subrange(0, n));
        lemma_byte_sum_prefix_mono(s.drop_last(), n);
    } else {
        assert(s.subrange(0, n) =~= s);
    }
}

} // verus!

verus! {

/// A copy of the bytes `b[i..j]`.
pub fn copy_range(b: &[u8], i: usize, j: usize) -> (r: Vec<u8>)
    requires
        i <= j <= b@.len(),
    ensures
        r@ == b@.subrange(i as int, j as int),
{
    vstd::slice::slice_to_vec(vstd::slice::slice_subrange(b, i, j))
}

} // verus!
