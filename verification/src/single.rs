//! Single-precision numbers as bit patterns.
//!
//! A number that is finite and not negative is held as its IEEE-754 bit
//! pattern: an exponent field of eight bits above a fraction field of
//! twenty-three. The library never computes with such numbers. It orders them,
//! and it writes the patterns of small whole numbers.

use vstd::arithmetic::power2::{
    lemma2_to64, lemma_pow2_adds, lemma_pow2_pos, lemma_pow2_strictly_increases,
    lemma_pow2_unfold, pow2,
};
use vstd::prelude::*;

verus! {

/// The bit pattern of zero.
pub const ZERO_BITS: u32 = 0;

/// The bit pattern of one.
pub const ONE_BITS: u32 = 0x3f80_0000;

/// The bit pattern of positive infinity.
pub const INFINITY_BITS: u32 = 0x7f80_0000;

/// The weight of the exponent field in a bit pattern.
pub const EXPONENT_UNIT: u32 = 0x80_0000;

/// Every whole number below this limit is a single-precision number.
pub const EXACT_LIMIT: u32 = 0x100_0000;

/// Whether `bits` is the pattern of a finite single-precision number that is
/// not negative.
pub open spec fn is_magnitude(bits: u32) -> bool {
    bits < INFINITY_BITS
}

/// Whether `bits` is the pattern of a single-precision number in `[0, 1)`.
pub open spec fn is_unit_fraction(bits: u32) -> bool {
    bits < ONE_BITS
}

/// The exponent field of the pattern of a magnitude.
pub open spec fn exponent_field(bits: u32) -> nat {
    (bits / EXPONENT_UNIT) as nat
}

/// The fraction field of a pattern.
pub open spec fn fraction_field(bits: u32) -> nat {
    (bits % EXPONENT_UNIT) as nat
}

/// The number that the pattern of a magnitude stands for, counted in units of
/// `2^-149`, the smallest distance between single-precision numbers: with
/// exponent field `e` and fraction field `f` the number is `f * 2^-149` where
/// `e` is zero, and `(2^23 + f) * 2^(e - 150)` where it is not.
pub open spec fn scaled_value(bits: u32) -> nat {
    if exponent_field(bits) == 0 {
        fraction_field(bits)
    } else {
        ((EXPONENT_UNIT + fraction_field(bits)) * pow2((exponent_field(bits) - 1) as nat)) as nat
    }
}

/// Whether `bits` is the pattern of the whole number `n`.
pub open spec fn is_pattern_of(bits: u32, n: nat) -> bool {
    is_magnitude(bits) && scaled_value(bits) == n * pow2(149)
}

/// Powers of two do not fall where the exponent rises.
proof fn lemma_pow2_rises(a: nat, b: nat)
    requires
        a <= b,
    ensures
        pow2(a) <= pow2(b),
{
    if a < b {
        lemma_pow2_strictly_increases(a, b);
    }
}

/// A number with exponent field `e` lies below `2^(e + 23)` units, and at or
/// above `2^(e + 22)` units where `e` is not zero.
proof fn lemma_value_bounds(bits: u32)
    ensures
        scaled_value(bits) < pow2(exponent_field(bits) + 23),
        exponent_field(bits) > 0 ==> pow2(exponent_field(bits) + 22) <= scaled_value(bits),
{
    let e = exponent_field(bits);
    let f = fraction_field(bits);
    lemma2_to64();
    if e > 0 {
        let p = pow2((e - 1) as nat);
        lemma_pow2_adds(23, (e - 1) as nat);
        lemma_pow2_adds(24, (e - 1) as nat);
        lemma_pow2_pos((e - 1) as nat);
        assert(0x80_0000 * p <= (0x80_0000 + f) * p < 0x100_0000 * p) by (nonlinear_arith)
            requires
                0 <= f < 0x80_0000,
                p > 0,
        ;
    }
}

/// The smaller pattern stands for the smaller number.
proof fn lemma_smaller_pattern(a: u32, b: u32)
    requires
        a < b,
    ensures
        scaled_value(a) < scaled_value(b),
{
    let ea = exponent_field(a);
    let eb = exponent_field(b);
    let fa = fraction_field(a);
    let fb = fraction_field(b);
    if ea < eb {
        lemma_value_bounds(a);
        lemma_value_bounds(b);
        lemma_pow2_rises(ea + 23, eb + 22);
    } else {
        if ea > 0 {
            let p = pow2((ea - 1) as nat);
            lemma_pow2_pos((ea - 1) as nat);
            assert((0x80_0000 + fa) * p < (0x80_0000 + fb) * p) by (nonlinear_arith)
                requires
                    fa < fb,
                    p > 0,
            ;
        }
    }
}

/// Among the patterns of magnitudes the order of the integers is the order
/// of the numbers they stand for, and different patterns stand for different
/// numbers.
pub proof fn lemma_order_of_patterns(a: u32, b: u32)
    requires
        is_magnitude(a),
        is_magnitude(b),
    ensures
        a < b <==> scaled_value(a) < scaled_value(b),
        a == b <==> scaled_value(a) == scaled_value(b),
{
    if a < b {
        lemma_smaller_pattern(a, b);
    } else if b < a {
        lemma_smaller_pattern(b, a);
    }
}

/// The pattern of one stands for one: `2^149` units. So among the patterns
/// of magnitudes those below it are those of the numbers in `[0, 1)`.
pub proof fn lemma_pattern_of_one(bits: u32)
    requires
        is_magnitude(bits),
    ensures
        is_pattern_of(ONE_BITS, 1),
        is_unit_fraction(bits) <==> scaled_value(bits) < pow2(149),
{
    lemma2_to64();
    lemma_pow2_adds(23, 126);
    lemma_order_of_patterns(bits, ONE_BITS);
}

/// A whole number has at most one pattern.
pub proof fn lemma_pattern_is_unique(a: u32, b: u32, n: nat)
    requires
        is_pattern_of(a, n),
        is_pattern_of(b, n),
    ensures
        a == b,
{
    lemma_order_of_patterns(a, b);
}

/// The bit pattern of the whole number `n`.
pub fn pattern_of(n: u32) -> (bits: u32)
    requires
        n < EXACT_LIMIT,
    ensures
        is_pattern_of(bits, n as nat),
{
    if n == 0 {
        return 0;
    }
    let mut shifted: u32 = n;
    let mut exponent: u32 = 150;
    let ghost mut k: nat = 0;
    proof {
        lemma2_to64();
    }
    while shifted < EXPONENT_UNIT
        invariant
            n >= 1,
            k <= 23,
            exponent == 150 - k,
            shifted == n * pow2(k),
            shifted < EXACT_LIMIT,
            pow2(23) == EXPONENT_UNIT,
        decreases 23 - k,
    {
        proof {
            lemma_pow2_unfold(k + 1);
            assert(pow2(k) <= shifted) by (nonlinear_arith)
                requires
                    shifted == n * pow2(k),
                    n >= 1,
            ;
            assert(n * (2 * pow2(k)) == 2 * (n * pow2(k))) by (nonlinear_arith);
            k = k + 1;
        }
        shifted = shifted * 2;
        exponent = exponent - 1;
    }
    let bits: u32 = exponent * EXPONENT_UNIT + (shifted - EXPONENT_UNIT);
    proof {
        let rest = (149 - k) as nat;
        lemma_pow2_adds(k, rest);
        assert((n * pow2(k)) * pow2(rest) == n * (pow2(k) * pow2(rest))) by (nonlinear_arith);
    }
    bits
}

} // verus!
