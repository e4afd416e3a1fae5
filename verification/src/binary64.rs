//! IEEE 754 double-precision numbers, read from their 64-bit patterns.
//!
//! A pattern holds a sign bit, eleven exponent bits and fifty-two fraction
//! bits. This module says which number a pattern stands for and offers the few
//! exact operations that banded scales need: telling the sign, telling a
//! not-a-number apart, flooring twice the magnitude, and writing down a small
//! multiple of one half.

use vstd::prelude::*;
use vstd::arithmetic::power2::{
    lemma2_to64, lemma2_to64_rest, lemma_pow2_adds, lemma_pow2_pos, lemma_pow2_strictly_increases,
    pow2,
};

verus! {

/// The pattern's highest bit: set for negative numbers.
pub const SIGN_BIT: u64 = 0x8000_0000_0000_0000;

/// The pattern of positive infinity: all exponent bits set, no fraction bit.
pub const INFINITY: u64 = 0x7FF0_0000_0000_0000;

/// Two to the power 52: the number of patterns that share one exponent.
pub const FRACTION_SPAN: u64 = 0x0010_0000_0000_0000;

/// The exponent field of one half.
pub const EXPONENT_OF_HALF: u64 = 1022;

/// Twice a magnitude is floored up to this bound and no further.
pub const DOUBLED_LIMIT: u8 = 128;

/// The pattern without its sign bit.
pub open spec fn magnitude_bits(bits: u64) -> u64 {
    if bits >= SIGN_BIT {
        (bits - SIGN_BIT) as u64
    } else {
        bits
    }
}

/// Whether the sign bit is set. It may be set on a zero too.
pub open spec fn spec_is_negative(bits: u64) -> bool {
    bits >= SIGN_BIT
}

/// Whether the pattern is a not-a-number.
pub open spec fn spec_is_nan(bits: u64) -> bool {
    magnitude_bits(bits) > INFINITY
}

/// Whether the pattern is an ordinary number: zero, subnormal or normal.
pub open spec fn is_finite(bits: u64) -> bool {
    magnitude_bits(bits) < INFINITY
}

/// The exponent field.
pub open spec fn exponent(bits: u64) -> nat {
    (magnitude_bits(bits) / FRACTION_SPAN) as nat
}

/// The fraction field.
pub open spec fn fraction(bits: u64) -> nat {
    (magnitude_bits(bits) % FRACTION_SPAN) as nat
}

/// The significand of a normal number: the fraction with the hidden bit in
/// front of it.
pub open spec fn significand(bits: u64) -> nat {
    (FRACTION_SPAN + fraction(bits)) as nat
}

/// The magnitude counted in the smallest positive double, two to the power
/// -1074: every ordinary number is a whole multiple of it.
pub open spec fn grains(bits: u64) -> nat {
    if exponent(bits) == 0 {
        fraction(bits)
    } else {
        significand(bits) * pow2((exponent(bits) - 1) as nat)
    }
}

/// The magnitude of the number that the pattern stands for. An infinity
/// counts as two to the power 1024, the magnitude that its exponent field
/// would give an ordinary number.
pub open spec fn magnitude(bits: u64) -> real {
    grains(bits) as real / pow2(1074) as real
}

/// The number that the pattern stands for. It is meant for patterns that are
/// no not-a-number.
pub open spec fn value(bits: u64) -> real {
    if spec_is_negative(bits) {
        -magnitude(bits)
    } else {
        magnitude(bits)
    }
}

/// Twice the magnitude, rounded down to a whole number.
pub open spec fn doubled_magnitude_floor(bits: u64) -> int {
    (magnitude(bits) * 2 as real).floor()
}

/// The position of the highest set bit of a number below 256 that is not
/// zero.
pub open spec fn top_bit(h: nat) -> nat {
    if h < 2 {
        0
    } else if h < 4 {
        1
    } else if h < 8 {
        2
    } else if h < 16 {
        3
    } else if h < 32 {
        4
    } else if h < 64 {
        5
    } else if h < 128 {
        6
    } else {
        7
    }
}

/// The pattern of `h` halves, for `h` below 256: positive, with the exponent
/// that brings the highest bit of `h` to the front of the significand.
pub open spec fn halves(h: nat) -> u64 {
    if h == 0 {
        0
    } else {
        let p = top_bit(h);
        let significand = h * pow2((52 - p) as nat);
        ((EXPONENT_OF_HALF + p) * FRACTION_SPAN + (significand - FRACTION_SPAN)) as u64
    }
}

/// The quotient of two whole numbers, rounded down, is their integer
/// quotient.
pub proof fn lemma_floor_of_quotient(s: nat, c: nat)
    requires
        c > 0,
    ensures
        (s as real / c as real).floor() == s / c,
{
    let q = s / c;
    let r = s % c;
    assert(s == q * c + r && 0 <= r < c) by (nonlinear_arith)
        requires
            q == s / c,
            r == s % c,
            c > 0,
    ;
    let x = s as real / c as real;
    assert(q as real <= x < (q + 1) as real) by (nonlinear_arith)
        requires
            x == s as real / c as real,
            s == q * c + r,
            0 <= r < c,
            c > 0,
    ;
}

/// A common factor of numerator and denominator cancels.
pub proof fn lemma_cancel(s: nat, c: nat, p: nat)
    requires
        c > 0,
        p > 0,
    ensures
        (s * p) as real / (c * p) as real == s as real / c as real,
{
    assert((s * p) as real / (c * p) as real == s as real / c as real) by (nonlinear_arith)
        requires
            c > 0,
            p > 0,
    ;
}

/// A magnitude is not negative.
pub proof fn lemma_magnitude_nonnegative(bits: u64)
    ensures
        magnitude(bits) >= 0 as real,
{
    let g = grains(bits);
    let top = pow2(1074);
    lemma_pow2_pos(1074);
    assert(g as real / top as real >= 0 as real) by (nonlinear_arith)
        requires
            g >= 0,
            top > 0,
    ;
}

/// Twice a quotient is the quotient by half the divisor.
pub proof fn lemma_doubled_quotient(s: nat, c: nat)
    requires
        c > 0,
    ensures
        (s as real / (2 * c) as real) * 2 as real == s as real / c as real,
{
    assert((s as real / (2 * c) as real) * 2 as real == s as real / c as real)
        by (nonlinear_arith)
        requires
            c > 0,
    ;
}

/// Below the exponent of one half, twice the magnitude stays below one.
pub proof fn lemma_doubled_floor_small(bits: u64)
    requires
        exponent(bits) < EXPONENT_OF_HALF,
    ensures
        doubled_magnitude_floor(bits) == 0,
{
    let e = exponent(bits);
    let f = fraction(bits);
    let g = grains(bits);
    let top = pow2(1074);
    lemma2_to64_rest();
    lemma_pow2_pos(1074);
    assert(pow2(52) == FRACTION_SPAN);
    assert(2 * g < top) by {
        if e == 0 {
            lemma_pow2_strictly_increases(53, 1074);
        } else {
            let low = pow2((e - 1) as nat);
            lemma_pow2_pos((e - 1) as nat);
            lemma_pow2_adds(54, (e - 1) as nat);
            if e + 53 < 1074 {
                lemma_pow2_strictly_increases(e + 53, 1074);
            }
            assert(2 * (significand(bits) * low) < pow2(54) * low) by (nonlinear_arith)
                requires
                    2 * significand(bits) < pow2(54),
                    low > 0,
            ;
        }
    }
    let x = g as real / top as real;
    assert((0 as real) <= x * (2 as real) && x * (2 as real) < (1 as real)) by (nonlinear_arith)
        requires
            x == g as real / top as real,
            2 * g < top,
            g >= 0,
            top > 0,
    ;
}

/// From seven exponents above that of one half on, twice the magnitude is at
/// least the bound.
pub proof fn lemma_doubled_floor_large(bits: u64)
    requires
        exponent(bits) > EXPONENT_OF_HALF + 6,
    ensures
        doubled_magnitude_floor(bits) >= DOUBLED_LIMIT,
{
    let e = exponent(bits);
    let f = fraction(bits);
    let g = grains(bits);
    let top = pow2(1074);
    let low = pow2((e - 1) as nat);
    lemma2_to64();
    lemma_pow2_pos(1074);
    lemma_pow2_adds(6, 1074);
    assert(pow2(1080) <= 2 * low * 0x8_0000_0000_0000) by {
        lemma2_to64_rest();
        lemma_pow2_adds(52, (e - 1) as nat);
        if e + 51 > 1080 {
            lemma_pow2_strictly_increases(1080, e + 51);
        }
        assert(pow2(52) * low == 2 * low * 0x8_0000_0000_0000) by (nonlinear_arith)
            requires
                pow2(52) == 0x10_0000_0000_0000,
        ;
    }
    assert(g >= FRACTION_SPAN * low) by (nonlinear_arith)
        requires
            g == (FRACTION_SPAN + f) * low,
            f >= 0,
            low >= 0,
    ;
    assert(g >= 64 * top) by (nonlinear_arith)
        requires
            g >= FRACTION_SPAN * low,
            FRACTION_SPAN == 0x10_0000_0000_0000,
            pow2(1080) <= 2 * low * 0x8_0000_0000_0000,
            pow2(1080) == 64 * top,
    ;
    let x = g as real / top as real;
    assert(x * (2 as real) >= (128 as real)) by (nonlinear_arith)
        requires
            x == g as real / top as real,
            g >= 64 * top,
            top > 0,
    ;
}

/// The power of two by which a significand is divided to floor twice its
/// magnitude, for the seven exponents from that of one half on.
pub open spec fn window_divisor(e: nat) -> nat {
    pow2((1074 - e) as nat)
}

/// Within seven exponents from that of one half on, twice the magnitude
/// floors to the significand divided by a power of two.
pub proof fn lemma_doubled_floor_window(bits: u64)
    requires
        EXPONENT_OF_HALF <= exponent(bits) <= EXPONENT_OF_HALF + 6,
    ensures
        doubled_magnitude_floor(bits) == significand(bits) / window_divisor(exponent(bits)),
        window_divisor(exponent(bits)) >= 0x4000_0000_0000,
{
    let e = exponent(bits);
    let s = significand(bits);
    let c = window_divisor(e);
    let low = pow2((e - 1) as nat);
    lemma2_to64_rest();
    lemma_pow2_pos((e - 1) as nat);
    lemma_pow2_pos((1074 - e) as nat);
    lemma_pow2_adds(1, (1074 - e) as nat);
    lemma_pow2_adds((1075 - e) as nat, (e - 1) as nat);
    lemma2_to64();
    assert(pow2(1074) == (2 * c) * low);
    assert(grains(bits) == s * low);
    lemma_cancel(s, 2 * c, low);
    lemma_doubled_quotient(s, c);
    lemma_floor_of_quotient(s, c);
}

/// Whether the sign bit is set.
#[verifier::when_used_as_spec(spec_is_negative)]
pub fn is_negative(bits: u64) -> (set: bool)
    ensures
        set == spec_is_negative(bits),
{
    bits >= SIGN_BIT
}

/// Whether the pattern is a not-a-number.
#[verifier::when_used_as_spec(spec_is_nan)]
pub fn is_nan(bits: u64) -> (nan: bool)
    ensures
        nan == spec_is_nan(bits),
{
    let rest = if bits >= SIGN_BIT {
        bits - SIGN_BIT
    } else {
        bits
    };
    rest > INFINITY
}

/// Twice the magnitude rounded down to a whole number, or the bound where it
/// would go beyond.
pub fn doubled_floor(bits: u64) -> (floor: u8)
    ensures
        floor as int == if doubled_magnitude_floor(bits) < DOUBLED_LIMIT {
            doubled_magnitude_floor(bits)
        } else {
            DOUBLED_LIMIT as int
        },
{
    let rest = if bits >= SIGN_BIT {
        bits - SIGN_BIT
    } else {
        bits
    };
    let e = rest / FRACTION_SPAN;
    let f = rest % FRACTION_SPAN;
    if e < EXPONENT_OF_HALF {
        proof {
            lemma_doubled_floor_small(bits);
        }
        0
    } else if e > EXPONENT_OF_HALF + 6 {
        proof {
            lemma_doubled_floor_large(bits);
        }
        DOUBLED_LIMIT
    } else {
        let divisor: u64 = if e == 1022 {
            0x10_0000_0000_0000
        } else if e == 1023 {
            0x8_0000_0000_0000
        } else if e == 1024 {
            0x4_0000_0000_0000
        } else if e == 1025 {
            0x2_0000_0000_0000
        } else if e == 1026 {
            0x1_0000_0000_0000
        } else if e == 1027 {
            0x8000_0000_0000
        } else {
            0x4000_0000_0000
        };
        proof {
            lemma2_to64_rest();
            lemma_doubled_floor_window(bits);
        }
        ((FRACTION_SPAN + f) / divisor) as u8
    }
}

/// What the pattern of `h` halves stands for, given the position `p` of the
/// highest set bit of `h`.
proof fn lemma_halves_at(h: nat, p: nat)
    requires
        p <= 7,
        pow2(p) <= h < 2 * pow2(p),
        p == top_bit(h),
    ensures
        !is_negative(halves(h)),
        !is_nan(halves(h)),
        is_finite(halves(h)),
        value(halves(h)) == h as real / 2 as real,
{
    let bits = halves(h);
    let top = pow2(1074);
    let scale = pow2((52 - p) as nat);
    let low = pow2((1021 + p) as nat);
    lemma2_to64();
    lemma2_to64_rest();
    lemma_pow2_pos(1074);
    lemma_pow2_pos((52 - p) as nat);
    lemma_pow2_pos((1021 + p) as nat);
    lemma_pow2_adds(p, (52 - p) as nat);
    lemma_pow2_adds(1, (52 - p) as nat);
    lemma_pow2_adds((53 - p) as nat, (1021 + p) as nat);
    assert(FRACTION_SPAN <= h * scale < 2 * FRACTION_SPAN) by (nonlinear_arith)
        requires
            pow2(p) <= h < 2 * pow2(p),
            pow2(p) * scale == FRACTION_SPAN,
            scale > 0,
    ;
    assert(magnitude_bits(bits) == (EXPONENT_OF_HALF + p) * FRACTION_SPAN + (h * scale
        - FRACTION_SPAN));
    assert(exponent(bits) == EXPONENT_OF_HALF + p);
    assert(significand(bits) == h * scale);
    assert(grains(bits) == h * (scale * low)) by (nonlinear_arith)
        requires
            grains(bits) == (h * scale) * low,
    ;
    assert(top == 2 * (scale * low)) by (nonlinear_arith)
        requires
            top == (2 * scale) * low,
    ;
    assert(scale * low > 0) by (nonlinear_arith)
        requires
            scale > 0,
            low > 0,
    ;
    lemma_cancel(h, 2, scale * low);
}

/// What the pattern of `h` halves stands for.
pub proof fn lemma_halves(h: nat)
    requires
        h < 256,
    ensures
        !is_negative(halves(h)),
        !is_nan(halves(h)),
        is_finite(halves(h)),
        value(halves(h)) == h as real / 2 as real,
{
    lemma2_to64();
    if h == 0 {
        lemma_pow2_pos(1074);
        assert(grains(halves(h)) == 0);
        lemma_cancel(0, 1, pow2(1074));
    } else {
        lemma_halves_at(h, top_bit(h));
    }
}

/// The pattern of `h` halves.
pub fn from_halves(h: u8) -> (bits: u64)
    ensures
        bits == halves(h as nat),
{
    if h == 0 {
        0
    } else {
        proof {
            lemma2_to64_rest();
        }
        let (p, scale): (u64, u64) = if h < 2 {
            (0, 0x10_0000_0000_0000)
        } else if h < 4 {
            (1, 0x8_0000_0000_0000)
        } else if h < 8 {
            (2, 0x4_0000_0000_0000)
        } else if h < 16 {
            (3, 0x2_0000_0000_0000)
        } else if h < 32 {
            (4, 0x1_0000_0000_0000)
        } else if h < 64 {
            (5, 0x8000_0000_0000)
        } else if h < 128 {
            (6, 0x4000_0000_0000)
        } else {
            (7, 0x2000_0000_0000)
        };
        (EXPONENT_OF_HALF + p) * FRACTION_SPAN + (h as u64 * scale - FRACTION_SPAN)
    }
}

} // verus!
