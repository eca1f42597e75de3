//! Reading the sensor's samples. The sensor reports single-precision
//! numbers; the rest of the library works on thousandths, as integers, so
//! that a comparison or a division means exactly what it says. A sample
//! comes in as the 32 bits of its binary32 encoding.

use crate::range::clamp;
use vstd::arithmetic::div_mod::{
    lemma_basic_div, lemma_fundamental_div_mod, lemma_fundamental_div_mod_converse,
};
use vstd::arithmetic::power2::{
    lemma2_to64, lemma2_to64_rest, lemma_pow2_strictly_increases, lemma_pow2_unfold, pow2,
};
use vstd::prelude::*;

verus! {

/// How many units of the library make one unit of the sensor.
pub const UNITS: u32 = 1000;

/// The sign bit of a sample: set for negative numbers and for negative zero.
pub open spec fn sign_bit(bits: u32) -> bool {
    bits >= 0x8000_0000
}

/// The eight exponent bits of a sample.
pub open spec fn exponent_bits(bits: u32) -> int {
    (bits as int / 0x80_0000) % 0x100
}

/// The 23 fraction bits of a sample.
pub open spec fn fraction_bits(bits: u32) -> int {
    bits as int % 0x80_0000
}

/// The significand of a finite sample, as an integer: the fraction bits,
/// with the implicit leading bit unless the number is subnormal.
pub open spec fn significand(bits: u32) -> int {
    if exponent_bits(bits) == 0 {
        fraction_bits(bits)
    } else {
        0x80_0000 + fraction_bits(bits)
    }
}

/// The power of two that the significand of a finite sample is scaled by.
pub open spec fn power(bits: u32) -> int {
    if exponent_bits(bits) == 0 {
        -149
    } else {
        exponent_bits(bits) - 150
    }
}

/// `n` times two to the `power`, rounded down.
pub open spec fn scale_by_power(n: int, power: int) -> int {
    if power >= 0 {
        n * pow2(power as nat)
    } else {
        n / (pow2((-power) as nat) as int)
    }
}

/// The number that a sample stands for, in thousandths and rounded down.
/// What does not fit in 64 bits saturates, the infinities included; what is
/// not a number counts as 0.
pub open spec fn thousandths_spec(bits: u32) -> int {
    if exponent_bits(bits) == 0xff {
        if fraction_bits(bits) != 0 {
            0
        } else if sign_bit(bits) {
            i64::MIN as int
        } else {
            i64::MAX as int
        }
    } else {
        let magnitude = significand(bits) * UNITS;
        let signed = if sign_bit(bits) {
            -magnitude
        } else {
            magnitude
        };
        clamp(scale_by_power(signed, power(bits)), i64::MIN as int, i64::MAX as int)
    }
}

/// Two to the `e`.
fn power_of_two(e: u32) -> (p: u128)
    requires
        e <= 40,
    ensures
        p == pow2(e as nat),
        0 < p <= 0x100_0000_0000,
{
    let mut p: u128 = 1;
    let mut i: u32 = 0;
    proof {
        lemma2_to64();
    }
    while i < e
        invariant
            i <= e <= 40,
            p == pow2(i as nat),
            0 < p <= 0x100_0000_0000,
        decreases e - i,
    {
        proof {
            lemma_pow2_unfold((i + 1) as nat);
            lemma2_to64_rest();
            if i + 1 < 40 {
                lemma_pow2_strictly_increases((i + 1) as nat, 40);
            }
        }
        p = p * 2;
        i = i + 1;
    }
    p
}

/// Reads a sample: the number that `bits` stands for, in thousandths.
pub fn thousandths(bits: u32) -> (t: i64)
    ensures
        t == thousandths_spec(bits),
{
    let negative: bool = bits >= 0x8000_0000;
    let exponent: u32 = (bits / 0x80_0000) % 0x100;
    let fraction: u32 = bits % 0x80_0000;
    if exponent == 0xff {
        return if fraction != 0 {
            0
        } else if negative {
            i64::MIN
        } else {
            i64::MAX
        };
    }
    let significand: u32 = if exponent == 0 {
        fraction
    } else {
        0x80_0000 + fraction
    };
    let magnitude: u128 = significand as u128 * UNITS as u128;
    if exponent >= 150 {
        let up: u32 = exponent - 150;
        if up > 40 {
            // At least 2^23 thousand times 2^41: beyond 64 bits.
            proof {
                lemma2_to64_rest();
                if up > 41 {
                    lemma_pow2_strictly_increases(41, up as nat);
                }
                assert(magnitude * pow2(up as nat) >= 0x8000_0000_0000_0000) by (nonlinear_arith)
                    requires
                        magnitude >= 0x80_0000 * 1000,
                        pow2(up as nat) >= 0x200_0000_0000,
                ;
                assert((-magnitude) * pow2(up as nat) == -(magnitude * pow2(up as nat)))
                    by (nonlinear_arith);
            }
            if negative {
                i64::MIN
            } else {
                i64::MAX
            }
        } else {
            let factor: u128 = power_of_two(up);
            assert(magnitude * factor <= 0x4_0000_0000 * 0x100_0000_0000) by (nonlinear_arith)
                requires
                    magnitude <= 0x4_0000_0000,
                    factor <= 0x100_0000_0000,
            ;
            assert((-magnitude) * factor == -(magnitude * factor)) by (nonlinear_arith);
            let whole: u128 = magnitude * factor;
            if negative {
                if whole > 0x8000_0000_0000_0000 {
                    i64::MIN
                } else {
                    (-(whole as i128)) as i64
                }
            } else {
                if whole > 0x7fff_ffff_ffff_ffff {
                    i64::MAX
                } else {
                    whole as i64
                }
            }
        }
    } else {
        let down: u32 = if exponent == 0 {
            149
        } else {
            150 - exponent
        };
        if down > 40 {
            // Less than 2^34 over at least 2^41: a fraction below one.
            proof {
                lemma2_to64_rest();
                if down > 41 {
                    lemma_pow2_strictly_increases(41, down as nat);
                }
                let divisor = pow2(down as nat) as int;
                if magnitude == 0 {
                    lemma_basic_div(0, divisor);
                } else if negative {
                    lemma_fundamental_div_mod_converse(
                        -(magnitude as int),
                        divisor,
                        -1,
                        divisor - magnitude,
                    );
                } else {
                    lemma_basic_div(magnitude as int, divisor);
                }
            }
            if negative && magnitude != 0 {
                -1
            } else {
                0
            }
        } else {
            let divisor: u128 = power_of_two(down);
            let whole: u128 = magnitude / divisor;
            let rest: u128 = magnitude % divisor;
            proof {
                let d = divisor as int;
                lemma_fundamental_div_mod(magnitude as int, d);
                assert(d * whole == whole * d) by (nonlinear_arith);
                if negative {
                    if rest == 0 {
                        assert(-(magnitude as int) == (-(whole as int)) * d + 0) by (nonlinear_arith)
                            requires
                                magnitude == whole * d,
                        ;
                        lemma_fundamental_div_mod_converse(-(magnitude as int), d, -(whole as int), 0);
                    } else {
                        assert(-(magnitude as int) == (-(whole as int) - 1) * d + (d - rest))
                            by (nonlinear_arith)
                            requires
                                magnitude == whole * d + rest,
                        ;
                        lemma_fundamental_div_mod_converse(
                            -(magnitude as int),
                            d,
                            -(whole as int) - 1,
                            d - rest,
                        );
                    }
                }
            }
            if negative {
                if rest == 0 {
                    -(whole as i64)
                } else {
                    -(whole as i64) - 1
                }
            } else {
                whole as i64
            }
        }
    }
}

} // verus!
