//! Double-precision scalars carried as their IEEE-754 bit patterns.
//!
//! The numerical routines in this library hold every scalar as the `u64` bit
//! pattern of an IEEE-754 double. The four rounded arithmetic operations and
//! the two ordering tests go through `rustc_apfloat`, a software
//! implementation of IEEE-754 binary64 arithmetic (round to nearest, ties to
//! even); each is a deterministic function of the operand bit patterns, named
//! here by an uninterpreted spec function. Negation, absolute value, and the
//! square root act on the bit patterns directly and are verified in full.

use vstd::prelude::*;
use vstd::arithmetic::power2::{
    pow2, lemma_pow2_pos, lemma_pow2_unfold, lemma2_to64, lemma2_to64_rest,
};
use rustc_apfloat::Float;
use rustc_apfloat::Round;
use rustc_apfloat::ieee::Double;

verus! {

/// The bit pattern of +0.0.
pub const ZERO_BITS: u64 = 0;

/// The bit pattern of 1.0.
pub const ONE_BITS: u64 = 0x3ff0000000000000;

/// The bit pattern of 0.5.
pub const HALF_BITS: u64 = 0x3fe0000000000000;

/// The sum of two doubles, rounded to nearest (ties to even), as a function
/// of the operand bit patterns.
pub uninterp spec fn add_bits(a: u64, b: u64) -> u64;

/// The difference of two doubles, rounded to nearest (ties to even), as a
/// function of the operand bit patterns.
pub uninterp spec fn sub_bits(a: u64, b: u64) -> u64;

/// The product of two doubles, rounded to nearest (ties to even), as a
/// function of the operand bit patterns.
pub uninterp spec fn mul_bits(a: u64, b: u64) -> u64;

/// The quotient of two doubles, rounded to nearest (ties to even), as a
/// function of the operand bit patterns.
pub uninterp spec fn div_bits(a: u64, b: u64) -> u64;

/// Whether the double with bit pattern `a` compares strictly below the one
/// with bit pattern `b` (false whenever either is a NaN).
pub uninterp spec fn lt_bits(a: u64, b: u64) -> bool;

/// Whether the double with bit pattern `a` compares at or below the one with
/// bit pattern `b` (false whenever either is a NaN).
pub uninterp spec fn le_bits(a: u64, b: u64) -> bool;

/// Relies on `rustc_apfloat::ieee::Double::add_r`: IEEE-754 double addition,
/// round to nearest with ties to even, a function of the operand bits alone.
#[verifier::external_body]
pub(crate) fn fp_add(a: u64, b: u64) -> (r: u64)
    ensures
        r == add_bits(a, b),
{
    let x = Double::from_bits(a as u128);
    let y = Double::from_bits(b as u128);
    x.add_r(y, Round::NearestTiesToEven).value.to_bits() as u64
}

/// Relies on `rustc_apfloat::ieee::Double::sub_r`: IEEE-754 double
/// subtraction, round to nearest with ties to even, a function of the operand
/// bits alone.
#[verifier::external_body]
pub(crate) fn fp_sub(a: u64, b: u64) -> (r: u64)
    ensures
        r == sub_bits(a, b),
{
    let x = Double::from_bits(a as u128);
    let y = Double::from_bits(b as u128);
    x.sub_r(y, Round::NearestTiesToEven).value.to_bits() as u64
}

/// Relies on `rustc_apfloat::ieee::Double::mul_r`: IEEE-754 double
/// multiplication, round to nearest with ties to even, a function of the
/// operand bits alone.
#[verifier::external_body]
pub(crate) fn fp_mul(a: u64, b: u64) -> (r: u64)
    ensures
        r == mul_bits(a, b),
{
    let x = Double::from_bits(a as u128);
    let y = Double::from_bits(b as u128);
    x.mul_r(y, Round::NearestTiesToEven).value.to_bits() as u64
}

/// Relies on `rustc_apfloat::ieee::Double::div_r`: IEEE-754 double division,
/// round to nearest with ties to even, a function of the operand bits alone.
#[verifier::external_body]
pub(crate) fn fp_div(a: u64, b: u64) -> (r: u64)
    ensures
        r == div_bits(a, b),
{
    let x = Double::from_bits(a as u128);
    let y = Double::from_bits(b as u128);
    x.div_r(y, Round::NearestTiesToEven).value.to_bits() as u64
}

/// Relies on `rustc_apfloat::ieee::Double`'s `PartialOrd`: the IEEE-754
/// ordering of two doubles, a function of the operand bits alone, with every
/// comparison against a NaN answering false.
#[verifier::external_body]
pub(crate) fn fp_lt(a: u64, b: u64) -> (r: bool)
    ensures
        r == lt_bits(a, b),
{
    Double::from_bits(a as u128) < Double::from_bits(b as u128)
}

/// Relies on `rustc_apfloat::ieee::Double`'s `PartialOrd`: the IEEE-754
/// ordering of two doubles, a function of the operand bits alone, with every
/// comparison against a NaN answering false.
#[verifier::external_body]
pub(crate) fn fp_le(a: u64, b: u64) -> (r: bool)
    ensures
        r == le_bits(a, b),
{
    Double::from_bits(a as u128) <= Double::from_bits(b as u128)
}

/// The absolute value of a double clears the sign bit and keeps every other
/// bit; IEEE-754 defines it as this bit operation.
pub open spec fn abs_bits(x: u64) -> u64 {
    x & 0x7fffffffffffffff
}

pub(crate) fn fp_abs(x: u64) -> (r: u64)
    ensures
        r == abs_bits(x),
{
    x & 0x7fffffffffffffff
}

/// The negation of a double flips the sign bit and keeps every other bit;
/// IEEE-754 defines it as this bit operation.
pub open spec fn neg_bits(x: u64) -> u64 {
    x ^ 0x8000000000000000
}

pub(crate) fn fp_neg(x: u64) -> (r: u64)
    ensures
        r == neg_bits(x),
{
    x ^ 0x8000000000000000
}

/// `s` is the integer square root of `n`: the largest integer whose square
/// does not exceed `n`.
pub open spec fn is_isqrt(n: int, s: int) -> bool {
    0 <= s && s * s <= n && n < (s + 1) * (s + 1)
}

/// The integer square root of `n`.
pub open spec fn int_sqrt(n: int) -> int {
    choose|s: int| #[trigger] is_isqrt(n, s)
}

/// Every non-negative integer has an integer square root.
proof fn lemma_isqrt_exists(n: int)
    requires
        n >= 0,
    ensures
        exists|s: int| is_isqrt(n, s),
    decreases n,
{
    if n == 0 {
        assert(is_isqrt(0, 0));
    } else {
        lemma_isqrt_exists(n - 1);
        let s = choose|s: int| #[trigger] is_isqrt(n - 1, s);
        if n < (s + 1) * (s + 1) {
            assert(is_isqrt(n, s));
        } else {
            assert(n < (s + 2) * (s + 2)) by (nonlinear_arith)
                requires
                    n - 1 < (s + 1) * (s + 1),
                    (s + 1) * (s + 1) <= n,
                    s >= 0,
            ;
            assert(is_isqrt(n, s + 1));
        }
    }
}

/// The integer square root is unique.
proof fn lemma_isqrt_unique(n: int, s1: int, s2: int)
    requires
        is_isqrt(n, s1),
        is_isqrt(n, s2),
    ensures
        s1 == s2,
{
    if s1 < s2 {
        assert(false) by (nonlinear_arith)
            requires
                0 <= s1 < s2,
                n < (s1 + 1) * (s1 + 1),
                s2 * s2 <= n,
        ;
    }
    if s2 < s1 {
        assert(false) by (nonlinear_arith)
            requires
                0 <= s2 < s1,
                n < (s2 + 1) * (s2 + 1),
                s1 * s1 <= n,
        ;
    }
}

/// Computes the integer square root by binary search.
fn isqrt_u128(n: u128) -> (s: u128)
    requires
        (n as int) < 0x4000000000000000000000000000,
    ensures
        is_isqrt(n as int, s as int),
        (s as int) < 0x80000000000000,
{
    let mut lo: u128 = 0;
    let mut hi: u128 = 0x80000000000000;
    proof {
        assert((0x80000000000000 as int) * (0x80000000000000 as int)
            == 0x4000000000000000000000000000) by (nonlinear_arith);
    }
    while lo + 1 < hi
        invariant
            lo < hi <= 0x80000000000000,
            (lo as int) * (lo as int) <= n as int,
            (n as int) < (hi as int) * (hi as int),
        decreases hi - lo,
    {
        let mid: u128 = lo + (hi - lo) / 2;
        proof {
            assert((mid as int) * (mid as int) < 0x4000000000000000000000000000)
                by (nonlinear_arith)
                requires
                    mid < 0x80000000000000,
            ;
        }
        if mid * mid <= n {
            lo = mid;
        } else {
            hi = mid;
        }
    }
    lo
}

/// Doubles the significand until it reaches the normalized range
/// [2^52, 2^53), lowering the exponent once for each doubling.
pub open spec fn norm2(m: int, eb: int) -> (int, int)
    decreases 0x20000000000000 - m
        when 1 <= m <= 0x20000000000000
{
    if m >= 0x10000000000000 {
        (m, eb)
    } else {
        norm2(2 * m, eb - 1)
    }
}

/// The significand and biased exponent of a positive finite double: the value
/// of the double with bit pattern `x` is m * 2^(eb - 1200) with m in
/// [2^52, 2^53).
pub open spec fn sqrt_norm(x: u64) -> (int, int) {
    let ef = ((x >> 52) & 0x7ff) as int;
    let fr = (x & 0xfffffffffffff) as int;
    if ef == 0 {
        norm2(fr, 126)
    } else {
        (fr + 0x10000000000000, ef + 125)
    }
}

/// The bit pattern of the correctly rounded (to nearest, ties to even) square
/// root of the positive finite double with significand `m` in [2^52, 2^53)
/// and biased exponent `eb` (value m * 2^(eb - 1200)): the 54-bit integer
/// square root of the significand, shifted to an even exponent, supplies the
/// 53 result bits and the round bit, and the rounding never ties because the
/// shifted significand cannot be an odd square.
pub open spec fn sqrt_compose(m: int, eb: int) -> u64 {
    let d = eb % 2;
    let big = m * (if d == 1 { 0x80000000000000int } else { 0x40000000000000int });
    let s = int_sqrt(big);
    let q = s / 2;
    let rounded = q + s % 2;
    let expf = (eb - d) / 2 + 449;
    (expf * 0x10000000000000 + (rounded - 0x10000000000000)) as u64
}

/// The bit pattern of the square root of the double with bit pattern `x`:
/// zeros map to themselves, a NaN, a negative argument, and negative infinity
/// map to the quiet NaN, positive infinity maps to itself, and every positive
/// finite argument maps to its correctly rounded square root.
pub open spec fn sqrt_bits(x: u64) -> u64 {
    if x == 0 || x == 0x8000000000000000 {
        x
    } else if (x >> 52) & 0x7ff == 0x7ff {
        if x & 0xfffffffffffff != 0 {
            0x7ff8000000000000
        } else if x >> 63 == 0 {
            x
        } else {
            0x7ff8000000000000
        }
    } else if x >> 63 != 0 {
        0x7ff8000000000000
    } else {
        let (m, eb) = sqrt_norm(x);
        sqrt_compose(m, eb)
    }
}

/// Computes the square root of a double held as its bit pattern, correctly
/// rounded to nearest with ties to even.
pub(crate) fn fp_sqrt(x: u64) -> (r: u64)
    ensures
        r == sqrt_bits(x),
{
    if x == 0 || x == 0x8000000000000000 {
        return x;
    }
    let ef: u64 = (x >> 52) & 0x7ff;
    let fr: u64 = x & 0xfffffffffffff;
    proof {
        assert(ef <= 0x7ff && fr < 0x10000000000000) by (bit_vector)
            requires
                ef == (x >> 52) & 0x7ff,
                fr == x & 0xfffffffffffff,
        ;
    }
    if ef == 0x7ff {
        if fr != 0 {
            return 0x7ff8000000000000;
        }
        if x >> 63 == 0 {
            return x;
        }
        return 0x7ff8000000000000;
    }
    if x >> 63 != 0 {
        return 0x7ff8000000000000;
    }
    let mut m: u64;
    let mut eb: u64;
    if ef == 0 {
        proof {
            assert(fr >= 1) by (bit_vector)
                requires
                    fr == x & 0xfffffffffffff,
                    (x >> 52) & 0x7ff == 0,
                    x >> 63 == 0,
                    x != 0,
            ;
        }
        m = fr;
        eb = 126;
        proof {
            lemma2_to64();
            assert(m as int == (fr as int) * pow2(0nat));
        }
        while m < 0x10000000000000
            invariant
                1 <= m < 0x20000000000000,
                74 <= eb <= 126,
                m as int == (fr as int) * pow2((126 - eb) as nat),
                norm2(m as int, eb as int) == norm2(fr as int, 126),
                1 <= fr < 0x10000000000000,
            decreases eb,
        {
            proof {
                let k = (126 - eb) as nat;
                lemma_pow2_pos(k);
                assert(pow2(k) <= m as int) by (nonlinear_arith)
                    requires
                        m as int == (fr as int) * pow2(k),
                        fr >= 1,
                        pow2(k) > 0,
                ;
                if eb == 74 {
                    lemma2_to64();
                    lemma2_to64_rest();
                    assert(pow2(52) == 0x10000000000000);
                    assert(false);
                }
                lemma_pow2_unfold((k + 1) as nat);
                assert((fr as int) * pow2((k + 1) as nat) == 2 * ((fr as int) * pow2(k)))
                    by (nonlinear_arith)
                    requires
                        pow2((k + 1) as nat) == 2 * pow2(k),
                ;
            }
            m = m * 2;
            eb = eb - 1;
        }
    } else {
        m = fr + 0x10000000000000;
        eb = ef + 125;
    }
    proof {
        assert((m as int, eb as int) == sqrt_norm(x));
        assert(0x10000000000000 <= m < 0x20000000000000);
        assert(74 <= eb <= 2171);
    }
    let d: u64 = eb % 2;
    let big: u128 = (m as u128) * (if d == 1 {
        0x80000000000000u128
    } else {
        0x40000000000000u128
    });
    proof {
        // 2^106 <= big < 2^108
        assert((m as int) * 0x80000000000000 < 0x1000000000000000000000000000
            && (m as int) * 0x40000000000000 >= 0x400000000000000000000000000
            && (m as int) * 0x40000000000000 <= (m as int) * 0x80000000000000)
            by (nonlinear_arith)
            requires
                0x10000000000000 <= m < 0x20000000000000,
        ;
    }
    let s: u128 = isqrt_u128(big);
    proof {
        assert(is_isqrt(big as int, s as int));
        assert(exists|t: int| is_isqrt(big as int, t));
        assert(is_isqrt(big as int, int_sqrt(big as int)));
        lemma_isqrt_unique(big as int, s as int, int_sqrt(big as int));
        // s is a 54-bit value: 2^53 <= s < 2^54
        if s as int >= 0x40000000000000 {
            assert((s as int) * (s as int) >= 0x1000000000000000000000000000)
                by (nonlinear_arith)
                requires
                    (s as int) >= 0x40000000000000,
            ;
            assert(false);
        }
        if (s as int) < 0x20000000000000 {
            assert(((s as int) + 1) * ((s as int) + 1) <= 0x400000000000000000000000000)
                by (nonlinear_arith)
                requires
                    0 <= (s as int) && (s as int) + 1 <= 0x20000000000000,
            ;
            assert(false);
        }
    }
    let q: u64 = (s / 2) as u64;
    let rounded: u64 = q + (s % 2) as u64;
    let expf: u64 = (eb - d) / 2 + 449;
    expf * 0x10000000000000 + (rounded - 0x10000000000000)
}

} // verus!
