//! Decimal length fields of the file transfer format.

use vstd::prelude::*;

verus! {

/// ASCII `0`.
pub const ZERO: u8 = 0x30;

/// ASCII `+`.
pub const PLUS: u8 = 0x2B;

/// `10` to the power `k`.
pub open spec fn pow10(k: nat) -> nat
    decreases k,
{
    if k == 0 {
        1
    } else {
        10 * pow10((k - 1) as nat)
    }
}

/// Whether `b` is an ASCII digit.
pub open spec fn is_digit(b: u8) -> bool {
    ZERO <= b <= 0x39
}

/// Whether every byte of `s` is an ASCII digit.
pub open spec fn all_digits(s: Seq<u8>) -> bool {
    forall|i: int| 0 <= i < s.len() ==> is_digit(#[trigger] s[i])
}

/// The number that the digits `s` write, most significant first.
pub open spec fn digits_value(s: Seq<u8>) -> nat
    decreases s.len(),
{
    if s.len() == 0 {
        0
    } else {
        digits_value(s.drop_last()) * 10 + (s.last() - ZERO) as nat
    }
}

/// The number a decimal field holds, read as `usize::from_str` reads text:
/// an optional leading `+`, then one or more digits.
pub open spec fn decimal_field_value(s: Seq<u8>) -> Option<nat> {
    if s.len() > 0 && s[0] == PLUS {
        let d = s.drop_first();
        if d.len() > 0 && all_digits(d) {
            Some(digits_value(d))
        } else {
            None
        }
    } else if s.len() > 0 && all_digits(s) {
        Some(digits_value(s))
    } else {
        None
    }
}

/// The low `width` decimal digits of `n`, most significant first.
pub open spec fn fixed_decimal(n: nat, width: nat) -> Seq<u8>
    decreases width,
{
    if width == 0 {
        seq![]
    } else {
        fixed_decimal(n / 10, (width - 1) as nat).push((ZERO + n % 10) as u8)
    }
}

/// Number of decimal digits of `n`.
pub open spec fn decimal_len(n: nat) -> nat
    decreases n,
{
    if n < 10 {
        1
    } else {
        1 + decimal_len(n / 10)
    }
}

/// `n` written in decimal, left-padded with zeros to at least `width`
/// digits (the `{:0width}` format).
pub open spec fn padded_decimal(n: nat, width: nat) -> Seq<u8> {
    fixed_decimal(
        n,
        if decimal_len(n) > width {
            decimal_len(n)
        } else {
            width
        },
    )
}

/// The digits of a value have the value, and are digits.
pub proof fn lemma_fixed_decimal_value(n: nat, width: nat)
    ensures
        fixed_decimal(n, width).len() == width,
        all_digits(fixed_decimal(n, width)),
        n < pow10(width) ==> digits_value(fixed_decimal(n, width)) == n,
    decreases width,
{
    if width > 0 {
        let w1 = (width - 1) as nat;
        lemma_fixed_decimal_value(n / 10, w1);
        let s = fixed_decimal(n, width);
        assert(s.drop_last() =~= fixed_decimal(n / 10, w1));
        if n < pow10(width) {
            assert(n / 10 < pow10(w1));
        }
    }
}

/// A value below `10^width` has at most `width` digits.
pub proof fn lemma_decimal_len_bound(n: nat, width: nat)
    requires
        width >= 1,
        n < pow10(width),
    ensures
        decimal_len(n) <= width,
    decreases width,
{
    if n >= 10 {
        assert(width >= 2) by {
            if width == 1 {
                assert(pow10(1) == 10) by {
                    assert(pow10(0) == 1);
                }
            }
        }
        lemma_decimal_len_bound(n / 10, (width - 1) as nat);
    }
}

/// The zero-padded decimal text of a value that fits the width reads back
/// as the value.
pub proof fn lemma_padded_decimal_roundtrip(n: nat, width: nat)
    requires
        width >= 1,
        n < pow10(width),
    ensures
        padded_decimal(n, width) == fixed_decimal(n, width),
        padded_decimal(n, width).len() == width,
        decimal_field_value(padded_decimal(n, width)) == Some(n),
{
    lemma_decimal_len_bound(n, width);
    lemma_fixed_decimal_value(n, width);
    let s = fixed_decimal(n, width);
    assert(is_digit(s[0]));
}

/// Appends the low `width` decimal digits of `n`.
pub fn push_fixed_decimal(v: &mut Vec<u8>, n: usize, width: usize)
    ensures
        final(v)@ == old(v)@ + fixed_decimal(n as nat, width as nat),
    decreases width,
{
    if width > 0 {
        push_fixed_decimal(v, n / 10, width - 1);
        v.push((ZERO as usize + n % 10) as u8);
        assert(fixed_decimal(n as nat, width as nat) == fixed_decimal(
            (n / 10) as nat,
            (width - 1) as nat,
        ).push((ZERO + n % 10) as u8));
    }
}

/// Number of decimal digits of `n`.
pub fn decimal_len_of(n: usize) -> (r: usize)
    ensures
        r == decimal_len(n as nat),
{
    let mut m: usize = n;
    let mut len: usize = 1;
    assert(m as nat * pow10((len - 1) as nat) == n) by {
        let p = pow10((len - 1) as nat);
        assert(p == 1) by {
            assert((len - 1) as nat == 0);
        }
        assert(m as nat * p == m as nat) by (nonlinear_arith)
            requires
                p == 1,
        ;
    }
    while m >= 10
        invariant
            1 <= len <= 20,
            len - 1 + decimal_len(m as nat) == decimal_len(n as nat),
            m as nat * pow10((len - 1) as nat) <= n,
        decreases m,
    {
        proof {
            assert(m / 10 * pow10(len as nat) <= n) by (nonlinear_arith)
                requires
                    m as nat * pow10((len - 1) as nat) <= n,
                    pow10(len as nat) == 10 * pow10((len - 1) as nat),
                    m >= 10,
            ;
            assert(pow10(len as nat) == 10 * pow10((len - 1) as nat));
            if len == 20 {
                lemma_pow10_big();
                assert(false) by (nonlinear_arith)
                    requires
                        m as nat * pow10(19) <= n,
                        pow10(19) == 10000000000000000000nat,
                        m >= 10,
                        n <= usize::MAX,
                ;
            }
        }
        m = m / 10;
        len = len + 1;
    }
    len
}

proof fn lemma_pow10_big()
    ensures
        pow10(19) == 10000000000000000000nat,
{
    reveal_with_fuel(pow10, 20);
}

/// Appends `n` in decimal, zero-padded to at least `width` digits.
pub fn push_padded_decimal(v: &mut Vec<u8>, n: usize, width: usize)
    ensures
        final(v)@ == old(v)@ + padded_decimal(n as nat, width as nat),
{
    let len: usize = decimal_len_of(n);
    let w: usize = if len > width {
        len
    } else {
        width
    };
    push_fixed_decimal(v, n, w);
}

/// Reads a decimal field of at most 9 bytes (see [`decimal_field_value`]).
pub fn parse_decimal_field(b: &[u8]) -> (r: Option<usize>)
    requires
        b@.len() <= 9,
    ensures
        match decimal_field_value(b@) {
            Some(v) => r == Some(v as usize) && v <= 999999999,
            None => r is None,
        },
{
    let n: usize = b.len();
    if n == 0 {
        return None;
    }
    let start: usize = if b[0] == PLUS {
        1
    } else {
        0
    };
    if start == n {
        return None;
    }
    let d: &[u8] = vstd::slice::slice_subrange(b, start, n);
    let mut acc: usize = 0;
    let mut i: usize = 0;
    assert(pow10(0) == 1);
    while i < d.len()
        invariant
            n == b@.len(),
            n > 0,
            start < n,
            start <= 1,
            d@ == b@.subrange(start as int, n as int),
            start == 1 ==> b@[0] == PLUS,
            start == 0 ==> b@[0] != PLUS,
            d@.len() <= 9,
            i <= d@.len(),
            all_digits(d@.subrange(0, i as int)),
            acc == digits_value(d@.subrange(0, i as int)),
            acc < pow10(i as nat),
        decreases d.len() - i,
    {
        if d[i] < ZERO || d[i] > 0x39 {
            proof {
                assert(!all_digits(d@)) by {
                    assert(!is_digit(d@[i as int]));
                }
                if start == 1 {
                    assert(d@ =~= b@.drop_first());
                } else {
                    assert(d@ =~= b@);
                }
            }
            return None;
        }
        proof {
            let p = d@.subrange(0, i + 1);
            assert(p.drop_last() =~= d@.subrange(0, i as int));
            assert(all_digits(p)) by {
                assert forall|k: int| 0 <= k < p.len() implies is_digit(#[trigger] p[k]) by {
                    if k < i {
                        assert(p[k] == d@.subrange(0, i as int)[k]);
                    }
                }
            }
            assert(pow10((i + 1) as nat) == 10 * pow10(i as nat));
            lemma_pow10_le9(i as nat);
            assert(acc * 10 + (d[i as int] - ZERO) < pow10((i + 1) as nat)) by (nonlinear_arith)
                requires
                    acc < pow10(i as nat),
                    d[i as int] - ZERO < 10,
                    d[i as int] >= ZERO,
                    pow10((i + 1) as nat) == 10 * pow10(i as nat),
            ;
        }
        acc = acc * 10 + (d[i] - ZERO) as usize;
        i = i + 1;
    }
    proof {
        assert(d@.subrange(0, d@.len() as int) =~= d@);
        if start == 1 {
            assert(d@ =~= b@.drop_first());
        } else {
            assert(d@ =~= b@);
        }
        lemma_pow10_le9(d@.len());
    }
    Some(acc)
}

proof fn lemma_pow10_mono(a: nat, b: nat)
    requires
        a <= b,
    ensures
        pow10(a) <= pow10(b),
    decreases b,
{
    if a < b {
        lemma_pow10_mono(a, (b - 1) as nat);
    }
}

proof fn lemma_pow10_le9(k: nat)
    requires
        k <= 9,
    ensures
        pow10(k) <= 1000000000,
        k <= 8 ==> pow10(k) <= 100000000,
{
    reveal_with_fuel(pow10, 10);
    if k <= 8 {
        lemma_pow10_mono(k, 8);
    }
    lemma_pow10_mono(k, 9);
}

} // verus!
