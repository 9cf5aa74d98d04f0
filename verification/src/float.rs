//! Single-precision numbers, held as their IEEE 754 bit patterns.
//!
//! The bit patterns of two numbers that are not NaN are ordered like integers
//! once the sign bit is read as a minus sign. Apart from ordering numbers, the
//! library makes them of 16-bit samples, which is exact.

use vstd::arithmetic::power2::{
    lemma2_to64, lemma_pow2_pos, lemma_pow2_strictly_increases, lemma_pow2_unfold, pow2,
};
use vstd::prelude::*;

verus! {

/// The bit pattern of `0.0`.
pub const ZERO: u32 = 0x0000_0000;

/// The bit pattern of `0.5`.
pub const HALF: u32 = 0x3f00_0000;

/// The bit pattern of `1.0`.
pub const ONE: u32 = 0x3f80_0000;

/// The bit pattern of positive infinity.
pub const INFINITY: u32 = 0x7f80_0000;

/// The sign bit.
pub const SIGN: u32 = 0x8000_0000;

/// An integer that orders the number: its magnitude bits, negated when the
/// sign bit is set. Both zeros have the key 0.
pub open spec fn order_key(bits: u32) -> int {
    if bits < SIGN {
        bits as int
    } else {
        SIGN - bits
    }
}

/// Whether the pattern is not a number: its magnitude is past infinity.
pub open spec fn is_nan(bits: u32) -> bool {
    order_key(bits) > INFINITY || order_key(bits) < -INFINITY
}

/// Whether `a > b`. Nothing is greater than NaN, and NaN is greater than nothing.
pub open spec fn exceeds(a: u32, b: u32) -> bool {
    !is_nan(a) && !is_nan(b) && order_key(a) > order_key(b)
}

/// The number brought into `0.0..=1.0`. NaN stays what it is.
pub open spec fn clamped_to_unit(bits: u32) -> u32 {
    if exceeds(ZERO, bits) {
        ZERO
    } else if exceeds(bits, ONE) {
        ONE
    } else {
        bits
    }
}

/// Brings a number into `0.0..=1.0`, leaving NaN as it is.
pub fn clamp_to_unit(bits: u32) -> (clamped: u32)
    ensures
        clamped == clamped_to_unit(bits),
{
    if bits > SIGN && bits - SIGN <= INFINITY {
        ZERO
    } else if bits > ONE && bits <= INFINITY {
        ONE
    } else {
        bits
    }
}

/// Whether a number is greater than one half.
pub fn exceeds_half(bits: u32) -> (greater: bool)
    ensures
        greater == exceeds(bits, HALF),
{
    bits > HALF && bits <= INFINITY
}

/// A clamped number is NaN or lies between zero and one, and clamping it again
/// changes nothing.
pub proof fn law_clamp_lands_in_the_unit_interval(bits: u32)
    ensures
        is_nan(clamped_to_unit(bits)) || 0 <= order_key(clamped_to_unit(bits)) <= order_key(ONE),
        clamped_to_unit(clamped_to_unit(bits)) == clamped_to_unit(bits),
{
}

/// The exponent field of a pattern.
pub open spec fn exponent(bits: u32) -> int {
    (bits % SIGN) as int / 0x80_0000
}

/// The significand of a pattern whose exponent field is neither the lowest nor
/// the highest: its fraction field under a leading one.
pub open spec fn significand(bits: u32) -> int {
    0x80_0000 + bits % 0x80_0000
}

/// The distance of an integer from zero.
pub open spec fn distance(sample: i16) -> int {
    if sample < 0 {
        -(sample as int)
    } else {
        sample as int
    }
}

/// Whether a pattern is that of a sample divided by 32768.
///
/// A pattern with the exponent field `e` and the significand `s` stands for
/// `s * 2^(e - 150)`, negated when the sign bit is set. That is `d / 2^15`
/// exactly when `s` is `d * 2^(135 - e)`.
pub open spec fn is_fraction_of(bits: u32, sample: i16) -> bool {
    if sample == 0 {
        bits == ZERO
    } else {
        &&& bits >= SIGN <==> sample < 0
        &&& 112 <= exponent(bits) <= 127
        &&& significand(bits) == distance(sample) * pow2((135 - exponent(bits)) as nat)
    }
}

/// Divides a sample by 32768, exactly.
pub fn fraction_of(sample: i16) -> (bits: u32)
    ensures
        is_fraction_of(bits, sample),
{
    if sample == 0 {
        return ZERO;
    }
    let distance: u32 = if sample < 0 {
        (-(sample as i32)) as u32
    } else {
        sample as u32
    };
    let mut shifted: u32 = distance;
    let mut field: u32 = 135;
    proof {
        lemma2_to64();
        assert((135 - field) as nat == 0);
        assert(distance * pow2(0) == distance);
    }
    while shifted < 0x80_0000
        invariant
            0 < distance <= 0x8000,
            distance <= shifted < 0x100_0000,
            112 <= field <= 135,
            shifted == distance * pow2((135 - field) as nat),
        decreases field,
    {
        let ghost shift = (135 - field) as nat;
        proof {
            lemma2_to64();
            lemma_pow2_unfold(shift + 1);
            lemma_pow2_pos(shift);
            let power = pow2(shift);
            assert(distance * (2 * power) == 2 * (distance * power) && power <= distance * power)
                by (nonlinear_arith)
                requires
                    distance >= 1,
                    power >= 1,
            ;
            if shift >= 23 {
                if shift > 23 {
                    lemma_pow2_strictly_increases(23, shift);
                }
                assert(false);
            }
        }
        shifted = shifted * 2;
        field = field - 1;
    }
    proof {
        lemma2_to64();
        let shift = (135 - field) as nat;
        if shift < 8 {
            lemma_pow2_strictly_increases(shift, 8);
            let power = pow2(shift);
            assert(distance * power < 0x80_0000) by (nonlinear_arith)
                requires
                    distance <= 0x8000,
                    power < 256,
            ;
            assert(false);
        }
    }
    let magnitude: u32 = field * 0x80_0000 + (shifted - 0x80_0000);
    if sample < 0 {
        SIGN + magnitude
    } else {
        magnitude
    }
}

/// A fraction of a sample lies between minus one, which it may be, and one,
/// which it never is.
pub proof fn law_fractions_lie_in_the_unit_interval(bits: u32, sample: i16)
    requires
        is_fraction_of(bits, sample),
    ensures
        -order_key(ONE) <= order_key(bits) < order_key(ONE),
        order_key(bits) == -order_key(ONE) <==> sample == i16::MIN,
{
    if sample != 0 {
        lemma2_to64();
        let shift = (135 - exponent(bits)) as nat;
        let power = pow2(shift);
        let d = distance(sample);
        if shift == 8 {
            assert(d * 256 == significand(bits));
        } else if sample == i16::MIN {
            lemma_power_is_at_least(9, shift);
            assert(d * power >= 0x100_0000) by (nonlinear_arith)
                requires
                    d == 0x8000,
                    power >= 512,
            ;
        }
    }
}

/// Fractions are ordered as the samples are, so different samples have
/// different fractions.
pub proof fn law_fractions_keep_the_order(a_bits: u32, a: i16, b_bits: u32, b: i16)
    requires
        is_fraction_of(a_bits, a),
        is_fraction_of(b_bits, b),
        a < b,
    ensures
        order_key(a_bits) < order_key(b_bits),
{
    if 0 < a {
        lemma_farther_is_greater(a_bits, a, b_bits, b);
    } else if b < 0 {
        lemma_farther_is_greater(b_bits, b, a_bits, a);
    }
}

/// A sample has one fraction.
pub proof fn law_a_sample_has_one_fraction(a_bits: u32, b_bits: u32, sample: i16)
    requires
        is_fraction_of(a_bits, sample),
        is_fraction_of(b_bits, sample),
    ensures
        a_bits == b_bits,
{
    if sample != 0 {
        if exponent(a_bits) > exponent(b_bits) {
            lemma_smaller_exponent_is_farther(a_bits, sample, b_bits, sample);
        } else if exponent(a_bits) < exponent(b_bits) {
            lemma_smaller_exponent_is_farther(b_bits, sample, a_bits, sample);
        }
    }
}

proof fn lemma_power_is_at_least(low: nat, high: nat)
    requires
        low <= high,
    ensures
        pow2(low) <= pow2(high),
{
    if low < high {
        lemma_pow2_strictly_increases(low, high);
    }
}

proof fn lemma_smaller_exponent_is_farther(a_bits: u32, a: i16, b_bits: u32, b: i16)
    requires
        a != 0 && b != 0,
        is_fraction_of(a_bits, a),
        is_fraction_of(b_bits, b),
        exponent(b_bits) < exponent(a_bits),
    ensures
        distance(b) < distance(a),
{
    let a_shift = (135 - exponent(a_bits)) as nat;
    let b_shift = (135 - exponent(b_bits)) as nat;
    let p = pow2(a_shift);
    let q = pow2(b_shift);
    lemma_pow2_pos(a_shift);
    lemma_pow2_unfold(a_shift + 1);
    lemma_power_is_at_least(a_shift + 1, b_shift);
    let x = distance(a);
    let y = distance(b);
    assert(y < x) by (nonlinear_arith)
        requires
            0x80_0000 <= x * p,
            y * q < 0x100_0000,
            2 * p <= q,
            0 < p,
            0 < x,
            0 < y,
    ;
}

proof fn lemma_farther_is_greater(a_bits: u32, a: i16, b_bits: u32, b: i16)
    requires
        a != 0 && b != 0,
        is_fraction_of(a_bits, a),
        is_fraction_of(b_bits, b),
        distance(a) < distance(b),
    ensures
        a_bits % SIGN < b_bits % SIGN,
{
    if exponent(b_bits) < exponent(a_bits) {
        lemma_smaller_exponent_is_farther(a_bits, a, b_bits, b);
    } else if exponent(b_bits) == exponent(a_bits) {
        let shift = (135 - exponent(a_bits)) as nat;
        let p = pow2(shift);
        lemma_pow2_pos(shift);
        let x = distance(a);
        let y = distance(b);
        assert(x * p < y * p) by (nonlinear_arith)
            requires
                x < y,
                0 < p,
        ;
    }
}

/// Numbers from 0.0 to 1.0 are left alone by clamping, bit by bit. Numbers below
/// become 0.0, numbers above 1.0, infinities among them. What is no number, and
/// minus zero, stays what it is.
pub proof fn law_clamping_by_bits(bits: u32)
    ensures
        bits <= 0x3f80_0000 ==> clamped_to_unit(bits) == bits,
        0x3f80_0000 < bits <= 0x7f80_0000 ==> clamped_to_unit(bits) == 0x3f80_0000,
        0x8000_0000 < bits <= 0xff80_0000 ==> clamped_to_unit(bits) == 0,
        bits == 0x8000_0000 || 0x7f80_0000 < bits < 0x8000_0000 || 0xff80_0000 < bits
            ==> clamped_to_unit(bits) == bits,
{
}

/// A number is above one half exactly when its bits, read as an integer, lie
/// above those of 0.5 and not past those of infinity.
pub proof fn law_above_one_half_by_bits(bits: u32)
    ensures
        exceeds(bits, HALF) <==> 0x3f00_0000 < bits <= 0x7f80_0000,
{
}

/// Of two numbers that are not NaN, the one with the greater bits is greater if
/// neither has the sign bit, and less if both have it; a number with the sign bit
/// is never greater than one without.
pub proof fn law_order_by_bits(a: u32, b: u32)
    ensures
        a < 0x8000_0000 && b < 0x8000_0000 && a <= 0x7f80_0000 && b <= 0x7f80_0000 ==> (exceeds(
            a,
            b,
        ) <==> a > b),
        0x8000_0000 <= a <= 0xff80_0000 && 0x8000_0000 <= b <= 0xff80_0000 ==> (exceeds(a, b)
            <==> a < b),
        a >= 0x8000_0000 && b < 0x8000_0000 ==> !exceeds(a, b),
        0x7f80_0000 < a < 0x8000_0000 || 0xff80_0000 < a ==> !exceeds(a, b) && !exceeds(b, a),
{
}

/// Fractions scale with their samples: the fraction of twice a sample has the
/// next exponent and the same fraction field, and the fraction of the opposite
/// sample differs in the sign bit only.
pub proof fn law_fractions_scale(bits: u32, sample: i16, other_bits: u32, other: i16)
    requires
        is_fraction_of(bits, sample),
        is_fraction_of(other_bits, other),
        sample != 0,
    ensures
        other == 2 * sample ==> other_bits == bits + 0x80_0000,
        other == -sample ==> (if sample > 0 {
            other_bits == bits + 0x8000_0000
        } else {
            bits == other_bits + 0x8000_0000
        }),
{
    lemma2_to64();
    if other == 2 * sample {
        let shift = (135 - exponent(bits)) as nat;
        if exponent(bits) == 127 {
            let d = distance(sample);
            assert(d * 256 == significand(bits));
            assert(false);
        }
        let guess = (bits + 0x80_0000) as u32;
        assert(exponent(guess) == exponent(bits) + 1);
        assert(significand(guess) == significand(bits));
        lemma_pow2_unfold(shift);
        let d = distance(sample);
        let p = pow2((shift - 1) as nat);
        assert(d * (2 * p) == (2 * d) * p) by (nonlinear_arith);
        assert(is_fraction_of(guess, other));
        law_a_sample_has_one_fraction(guess, other_bits, other);
    }
    if other == -sample {
        let guess = (if sample > 0 {
            bits + 0x8000_0000
        } else {
            bits - 0x8000_0000
        }) as u32;
        assert(is_fraction_of(guess, other));
        law_a_sample_has_one_fraction(guess, other_bits, other);
    }
}

/// The fractions of the samples from one half up lie evenly: one sample more is 512
/// patterns more, from that of 0.5 on.
pub proof fn law_upper_fractions_lie_evenly(bits: u32, sample: i16)
    requires
        is_fraction_of(bits, sample),
        sample >= 0x4000,
    ensures
        bits == 0x3f00_0000 + 512 * (sample - 0x4000),
{
    lemma2_to64();
    let guess = (0x3f00_0000 + 512 * (sample - 0x4000)) as u32;
    assert(exponent(guess) == 126);
    assert(significand(guess) == 512 * sample);
    assert((135 - exponent(guess)) as nat == 9 && pow2(9) == 512);
    assert(is_fraction_of(guess, sample));
    law_a_sample_has_one_fraction(guess, bits, sample);
}

} // verus!
