//! Coordinates on the wire. The wire carries a coordinate as a binary
//! number of single precision: one sign bit, eight bits of exponent and 23
//! bits of fraction. The simulation counts in whole world units, so the
//! bits are turned into units when a packet is read and units into bits
//! when one is written, with integer arithmetic only.

use vstd::arithmetic::power2::{lemma2_to64, lemma_pow2_pos, lemma_pow2_unfold, pow2};
use vstd::prelude::*;

verus! {

/// The value of the lowest exponent bit, which is one more than the
/// largest fraction.
pub const FRACTION_RANGE: u32 = 0x80_0000;

/// The value of the sign bit.
pub const SIGN_BIT: u32 = 0x8000_0000;

/// The exponent field of the number one.
pub const EXPONENT_BIAS: u32 = 127;

/// The exponent field of the numbers whose significand counts units.
pub const UNIT_EXPONENT: u32 = 150;

/// Whether the sign bit is set.
pub open spec fn sign_of(bits: u32) -> bool {
    bits >= SIGN_BIT
}

/// The exponent field.
pub open spec fn exponent_of(bits: u32) -> nat {
    ((bits / FRACTION_RANGE) % 0x100) as nat
}

/// The fraction field.
pub open spec fn fraction_of(bits: u32) -> nat {
    (bits % FRACTION_RANGE) as nat
}

/// Whether the bits stand for no number.
pub open spec fn is_nan(bits: u32) -> bool {
    exponent_of(bits) == 255 && fraction_of(bits) != 0
}

/// The magnitude of the number that the bits stand for, with what comes
/// after the point cut off. An infinity counts as the number that its
/// fields would stand for, which is out of every range that matters.
pub open spec fn magnitude_of(bits: u32) -> nat {
    let exponent = exponent_of(bits);
    let significand = FRACTION_RANGE + fraction_of(bits);
    if exponent < EXPONENT_BIAS {
        0
    } else if exponent <= UNIT_EXPONENT {
        significand as nat / pow2((UNIT_EXPONENT - exponent) as nat)
    } else {
        significand as nat * pow2((exponent - UNIT_EXPONENT) as nat)
    }
}

/// The whole units that the bits stand for: the number rounded toward
/// zero, the nearest end of the range where it is out of range, and 0
/// where the bits stand for no number.
pub open spec fn units_of(bits: u32) -> i32 {
    if is_nan(bits) {
        0
    } else if sign_of(bits) {
        if magnitude_of(bits) >= 0x8000_0000 {
            i32::MIN
        } else {
            (-(magnitude_of(bits) as int)) as i32
        }
    } else {
        if magnitude_of(bits) >= 0x8000_0000 {
            i32::MAX
        } else {
            magnitude_of(bits) as i32
        }
    }
}

/// The position of the highest set bit of a number that is not 0.
pub open spec fn floor_log2(value: nat) -> nat
    decreases value,
{
    if value < 2 {
        0
    } else {
        1 + floor_log2(value / 2)
    }
}

/// The significand of the number of single precision that is nearest to
/// a magnitude whose highest set bit is at `top`: a number from 2^23 to
/// 2^24. A magnitude of more than 24 bits is rounded to the nearest
/// significand, and to the even one where two are equally near.
pub open spec fn significand_of(magnitude: nat, top: nat) -> nat {
    if top <= 23 {
        magnitude * pow2((23 - top) as nat)
    } else {
        let shift = (top - 23) as nat;
        let kept = magnitude / pow2(shift);
        let dropped = magnitude % pow2(shift);
        let half = pow2((shift - 1) as nat);
        if dropped > half || (dropped == half && kept % 2 == 1) {
            kept + 1
        } else {
            kept
        }
    }
}

/// The magnitude of a number of units.
pub open spec fn magnitude(units: i32) -> nat {
    if units < 0 {
        (-(units as int)) as nat
    } else {
        units as nat
    }
}

/// The bits of the number of single precision that is nearest to a number
/// of units.
pub open spec fn bits_of(units: i32) -> u32 {
    if units == 0 {
        0
    } else {
        let top = floor_log2(magnitude(units));
        let significand = significand_of(magnitude(units), top);
        let sign: nat = if units < 0 {
            SIGN_BIT as nat
        } else {
            0
        };
        if significand == 2 * FRACTION_RANGE {
            (sign + (top + 1 + EXPONENT_BIAS) * FRACTION_RANGE) as u32
        } else {
            (sign + (top + EXPONENT_BIAS) * FRACTION_RANGE + (significand - FRACTION_RANGE)) as u32
        }
    }
}

fn power_of_two(exponent: u32) -> (power: u64)
    requires
        exponent < 63,
    ensures
        power == pow2(exponent as nat),
        power >= 1,
{
    let mut power: u64 = 1;
    let mut done: u32 = 0;
    proof {
        lemma2_to64();
    }
    while done < exponent
        invariant
            done <= exponent < 63,
            power == pow2(done as nat),
            power >= 1,
        decreases exponent - done,
    {
        proof {
            vstd::arithmetic::power2::lemma2_to64_rest();
            lemma_pow2_unfold((done + 1) as nat);
            lemma_pow2_bound(done as nat, 62);
        }
        power = power * 2;
        done += 1;
    }
    power
}

/// A power of two is not more than a power with a larger exponent.
pub proof fn lemma_pow2_bound(small: nat, large: nat)
    requires
        small <= large,
    ensures
        pow2(small) <= pow2(large),
        pow2(small) >= 1,
    decreases large - small,
{
    lemma_pow2_pos(small);
    if small < large {
        lemma_pow2_bound(small, (large - 1) as nat);
        lemma_pow2_unfold(large);
    }
}

/// The whole units that the bits of a coordinate stand for.
pub fn bits_to_units(bits: u32) -> (units: i32)
    ensures
        units == units_of(bits),
{
    let negative: bool = bits >= SIGN_BIT;
    let exponent: u32 = (bits / FRACTION_RANGE) % 0x100;
    let fraction: u32 = bits % FRACTION_RANGE;
    if exponent == 255 && fraction != 0 {
        return 0;
    }
    if exponent < EXPONENT_BIAS {
        return 0;
    }
    let significand: u64 = (FRACTION_RANGE + fraction) as u64;
    proof {
        lemma2_to64();
    }
    if exponent >= 158 {
        proof {
            lemma_pow2_bound(8, (exponent - UNIT_EXPONENT) as nat);
            assert(significand as nat * pow2((exponent - UNIT_EXPONENT) as nat) >= 0x8000_0000)
                by (nonlinear_arith)
                requires
                    significand >= 0x80_0000,
                    pow2((exponent - UNIT_EXPONENT) as nat) >= 0x100,
            ;
        }
        return if negative {
            i32::MIN
        } else {
            i32::MAX
        };
    }
    let whole: u64 = if exponent <= UNIT_EXPONENT {
        significand / power_of_two(UNIT_EXPONENT - exponent)
    } else {
        let scale = power_of_two(exponent - UNIT_EXPONENT);
        proof {
            lemma_pow2_bound((exponent - UNIT_EXPONENT) as nat, 7);
            assert(significand * scale < 0x8000_0000) by (nonlinear_arith)
                requires
                    significand < 0x100_0000,
                    scale <= 0x80,
            ;
        }
        significand * scale
    };
    proof {
        if exponent <= UNIT_EXPONENT {
            let divisor = pow2((UNIT_EXPONENT - exponent) as nat);
            lemma_pow2_pos((UNIT_EXPONENT - exponent) as nat);
            assert(significand as nat / divisor <= significand) by (nonlinear_arith)
                requires
                    divisor >= 1,
            ;
        }
    }
    if negative {
        -(whole as i64) as i32
    } else {
        whole as i32
    }
}

fn highest_bit(value: u32) -> (top: u32)
    requires
        value != 0,
    ensures
        top == floor_log2(value as nat),
        top < 32,
        pow2(top as nat) <= value,
        value < pow2((top + 1) as nat),
{
    let mut top: u32 = 0;
    let mut rest: u32 = value;
    proof {
        lemma2_to64();
    }
    while rest >= 2
        invariant
            rest >= 1,
            top < 32,
            rest * pow2(top as nat) <= value,
            value < (rest + 1) * pow2(top as nat),
            floor_log2(value as nat) == top + floor_log2(rest as nat),
            pow2(top as nat) <= value,
        decreases rest,
    {
        proof {
            lemma2_to64();
            lemma_pow2_unfold((top + 1) as nat);
            let p = pow2(top as nat);
            assert((rest / 2) * (2 * p) <= rest * p) by (nonlinear_arith)
                requires
                    rest >= 0,
                    p >= 0,
            ;
            assert((rest + 1) * p <= (rest / 2 + 1) * (2 * p)) by (nonlinear_arith)
                requires
                    rest >= 0,
                    p >= 0,
            ;
            assert(2 * p <= value) by (nonlinear_arith)
                requires
                    rest >= 2,
                    rest * p <= value,
                    p >= 0,
            ;
            if top >= 31 {
                lemma_pow2_bound(32, (top + 1) as nat);
            }
        }
        rest = rest / 2;
        top += 1;
    }
    proof {
        lemma_pow2_unfold((top + 1) as nat);
    }
    top
}

/// The bits of the coordinate on the wire that is nearest to a number of
/// units.
pub fn units_to_bits(units: i32) -> (bits: u32)
    ensures
        bits == bits_of(units),
{
    if units == 0 {
        return 0;
    }
    let size: u32 = if units < 0 {
        (-(units as i64)) as u32
    } else {
        units as u32
    };
    let sign: u64 = if units < 0 {
        SIGN_BIT as u64
    } else {
        0
    };
    let top = highest_bit(size);
    proof {
        lemma2_to64();
    }
    let significand: u64 = if top <= 23 {
        let scale = power_of_two(23 - top);
        proof {
            lemma_pow2_bound((23 - top) as nat, 23);
            assert(size as u64 * scale <= 0xffff_ffff * 0x80_0000) by (nonlinear_arith)
                requires
                    size <= 0xffff_ffff,
                    scale <= 0x80_0000,
            ;
        }
        (size as u64) * scale
    } else {
        let shift: u32 = top - 23;
        let scale = power_of_two(shift);
        let kept: u64 = (size as u64) / scale;
        let dropped: u64 = (size as u64) % scale;
        let half = power_of_two(shift - 1);
        if dropped > half || (dropped == half && kept % 2 == 1) {
            kept + 1
        } else {
            kept
        }
    };
    proof {
        lemma_significand_range(size as nat, top as nat);
    }
    if significand == 2 * (FRACTION_RANGE as u64) {
        (sign + ((top + 1 + EXPONENT_BIAS) as u64) * (FRACTION_RANGE as u64)) as u32
    } else {
        (sign + ((top + EXPONENT_BIAS) as u64) * (FRACTION_RANGE as u64) + (significand
            - FRACTION_RANGE as u64)) as u32
    }
}

/// The significand of a magnitude lies from 2^23 to 2^24.
pub proof fn lemma_significand_range(magnitude: nat, top: nat)
    requires
        magnitude != 0,
        top < 32,
        pow2(top) <= magnitude < pow2(top + 1),
    ensures
        FRACTION_RANGE <= significand_of(magnitude, top) <= 2 * FRACTION_RANGE,
{
    lemma2_to64();
    if top <= 23 {
        let scale = pow2((23 - top) as nat);
        vstd::arithmetic::power2::lemma_pow2_adds(top, (23 - top) as nat);
        vstd::arithmetic::power2::lemma_pow2_adds(top + 1, (23 - top) as nat);
        lemma_pow2_pos((23 - top) as nat);
        assert(pow2(top) * scale <= magnitude * scale) by (nonlinear_arith)
            requires
                pow2(top) <= magnitude,
                scale >= 0,
        ;
        assert(magnitude * scale <= pow2(top + 1) * scale) by (nonlinear_arith)
            requires
                magnitude <= pow2(top + 1),
                scale >= 0,
        ;
    } else {
        let shift = (top - 23) as nat;
        let scale = pow2(shift);
        vstd::arithmetic::power2::lemma_pow2_adds(23, shift);
        vstd::arithmetic::power2::lemma_pow2_adds(24, shift);
        lemma_pow2_pos(shift);
        let kept = magnitude / scale;
        assert(kept >= 0x80_0000 && kept < 0x100_0000) by (nonlinear_arith)
            requires
                kept == magnitude / scale,
                0x80_0000 * scale <= magnitude < 0x100_0000 * scale,
                scale > 0,
        ;
    }
}

/// A coordinate of up to 2^24 units is carried exactly: the bits that are
/// written for it stand for the same number of units.
pub proof fn lemma_units_round_trip(units: i32)
    requires
        -0x100_0000 <= units <= 0x100_0000,
    ensures
        units_of(bits_of(units)) == units,
{
    lemma2_to64();
    if units != 0 {
        let size = magnitude(units);
        let top = floor_log2(size);
        lemma_floor_log2(size);
        if top > 24 {
            lemma_pow2_bound(25, top);
        }
        lemma_significand_range(size, top);
        let significand = significand_of(size, top);
        let sign: nat = if units < 0 {
            SIGN_BIT as nat
        } else {
            0
        };
        if top <= 23 {
            let scale = pow2((23 - top) as nat);
            lemma_pow2_pos((23 - top) as nat);
            vstd::arithmetic::power2::lemma_pow2_adds(top + 1, (23 - top) as nat);
            assert(size * scale < pow2(top + 1) * scale) by (nonlinear_arith)
                requires
                    size < pow2(top + 1),
                    scale > 0,
            ;
            assert(significand < 2 * FRACTION_RANGE);
            let exponent = top + EXPONENT_BIAS;
            let bits = bits_of(units);
            assert(bits == sign + exponent * FRACTION_RANGE + (significand - FRACTION_RANGE));
            assert(exponent_of(bits) == exponent && fraction_of(bits) == significand
                - FRACTION_RANGE && sign_of(bits) == (units < 0)) by {
                assert(exponent * FRACTION_RANGE + (significand - FRACTION_RANGE) < 0x8000_0000);
            }
            assert(UNIT_EXPONENT - exponent == 23 - top);
            let written = (FRACTION_RANGE + fraction_of(bits)) as nat;
            assert(written == size * scale);
            assert(written / scale == size) by (nonlinear_arith)
                requires
                    written == size * scale,
                    scale > 0,
            ;
            assert(pow2((UNIT_EXPONENT - exponent_of(bits)) as nat) == scale);
            assert(magnitude_of(bits) == size);
        } else {
            assert(top == 24);
            assert(size == 0x100_0000);
            assert(pow2(1) == 2 && pow2(0) == 1);
            assert(significand == 0x80_0000);
            let bits = bits_of(units);
            assert(bits == sign + 151 * FRACTION_RANGE);
            assert(exponent_of(bits) == 151 && fraction_of(bits) == 0 && sign_of(bits) == (units
                < 0));
            assert(pow2((exponent_of(bits) - UNIT_EXPONENT) as nat) == 2);
            assert(magnitude_of(bits) == (FRACTION_RANGE + fraction_of(bits)) as nat * pow2(
                (exponent_of(bits) - UNIT_EXPONENT) as nat,
            ));
            assert(magnitude_of(bits) == size);
        }
    }
}

/// The highest set bit of a number is where the powers of two around the
/// number say.
pub proof fn lemma_floor_log2(value: nat)
    requires
        value != 0,
    ensures
        pow2(floor_log2(value)) <= value < pow2(floor_log2(value) + 1),
    decreases value,
{
    lemma2_to64();
    if value >= 2 {
        lemma_floor_log2(value / 2);
        lemma_pow2_unfold(floor_log2(value / 2) + 1);
        lemma_pow2_unfold(floor_log2(value / 2) + 2);
    }
}

} // verus!
