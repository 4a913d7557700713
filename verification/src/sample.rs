//! Converting 32-bit floating-point samples, given as their IEEE 754
//! bit patterns, into the library's fixed-point representation
//! (value times `SAMPLE_SCALE`, rounded to the nearest step, ties up
//! in magnitude).

use vstd::prelude::*;

use vstd::arithmetic::div_mod::{lemma_basic_div, lemma_div_is_ordered_by_denominator};
use vstd::arithmetic::power2::{
    lemma2_to64, lemma2_to64_rest, lemma_pow2_adds, lemma_pow2_pos, lemma_pow2_strictly_increases,
    pow2,
};

use crate::stack::SAMPLE_LIMIT;

verus! {

/// Sign bit of a 32-bit floating-point pattern.
pub open spec fn f32_sign(b: u32) -> u32 {
    b >> 31
}

/// Biased exponent of a 32-bit floating-point pattern.
pub open spec fn f32_exp(b: u32) -> u32 {
    (b >> 23) & 0xff
}

/// Mantissa field of a 32-bit floating-point pattern.
pub open spec fn f32_man(b: u32) -> u32 {
    b & 0x7f_ffff
}

/// Magnitude, in fixed-point steps of 1/256, of a finite 32-bit
/// floating-point value with biased exponent `exp` and mantissa `man`.
/// A normal value is `(2^23 + man) * 2^(exp - 127 - 23)`, so in steps
/// it is `(2^23 + man) * 2^(exp - 142)`; a negative power shifts right
/// with half-up rounding.  Subnormal values (`exp == 0`) are below a
/// quarter step and round to zero.
pub open spec fn fixed_mag_of(exp: u32, man: u32) -> int {
    if exp == 0 {
        0
    } else if exp >= 142 {
        (0x80_0000 + man) * pow2((exp - 142) as nat)
    } else {
        (0x80_0000 + man + pow2((141 - exp) as nat)) / (pow2((142 - exp) as nat) as int)
    }
}

/// The fixed-point sample for a 32-bit floating-point bit pattern:
/// `None` for an infinity or not-a-number (`exp == 255`) and for a
/// magnitude beyond `SAMPLE_LIMIT`; otherwise the signed magnitude.
pub open spec fn fixed_of_bits(b: u32) -> Option<int> {
    if f32_exp(b) == 255 {
        None
    } else {
        let mag = fixed_mag_of(f32_exp(b), f32_man(b));
        if mag > SAMPLE_LIMIT {
            None
        } else if f32_sign(b) == 1 {
            Some(-mag)
        } else {
            Some(mag)
        }
    }
}

/// Computes a small power of two.
fn pow2_u64(k: u64) -> (r: u64)
    requires
        k < 64,
    ensures
        r == pow2(k as nat),
{
    proof {
        lemma2_to64();
        lemma2_to64_rest();
    }
    let mut r: u64 = 1;
    let mut i: u64 = 0;
    while i < k
        invariant
            i <= k < 64,
            r == pow2(i as nat),
        decreases k - i,
    {
        proof {
            lemma_pow2_adds(i as nat, 1);
            lemma2_to64();
            lemma_pow2_strictly_increases((i + 1) as nat, 64);
            lemma2_to64_rest();
        }
        r = r * 2;
        i += 1;
    }
    r
}

/// Converts one 32-bit floating-point bit pattern into a fixed-point
/// sample, refusing infinities, not-a-numbers and magnitudes beyond
/// `SAMPLE_LIMIT`.
pub fn fixed_from_bits(bits: u32) -> (r: Option<i64>)
    ensures
        match r {
            Some(v) => fixed_of_bits(bits) == Some(v as int) && -SAMPLE_LIMIT <= v <= SAMPLE_LIMIT,
            None => fixed_of_bits(bits) is None,
        },
{
    let sign: u32 = bits >> 31;
    let exp: u32 = (bits >> 23) & 0xff;
    let man: u32 = bits & 0x7f_ffff;
    proof {
        assert(bits & 0x7f_ffff < 0x80_0000) by (bit_vector);
        assert((bits >> 23) & 0xff < 256) by (bit_vector);
        assert(bits >> 31 == 0 || bits >> 31 == 1) by (bit_vector);
        lemma2_to64();
        lemma2_to64_rest();
    }
    if exp == 255 {
        return None;
    }
    let mag: u64;
    if exp == 0 {
        mag = 0;
    } else if exp >= 142 {
        let j: u32 = exp - 142;
        let frac: u64 = 0x80_0000u64 + man as u64;
        if j >= 40 {
            proof {
                if (j as nat) > 40 {
                    lemma_pow2_strictly_increases(40, j as nat);
                }
                assert(frac * pow2(j as nat) > SAMPLE_LIMIT) by (nonlinear_arith)
                    requires
                        frac >= 0x80_0000,
                        pow2(j as nat) >= 0x100_0000_0000,
                        SAMPLE_LIMIT < 0x80_0000 * 0x100_0000_0000,
                ;
            }
            return None;
        }
        let p: u64 = pow2_u64(j as u64);
        proof {
            if (j as nat) < 39 {
                lemma_pow2_strictly_increases(j as nat, 39);
            }
            assert(frac * pow2(j as nat) < 0x8000_0000_0000_0000) by (nonlinear_arith)
                requires
                    0 < frac < 0x100_0000,
                    0 < pow2(j as nat) <= 0x80_0000_0000,
            ;
        }
        mag = frac * p;
        if mag > SAMPLE_LIMIT as u64 {
            return None;
        }
    } else {
        let k: u32 = 142 - exp;
        let frac: u64 = 0x80_0000u64 + man as u64;
        proof {
            lemma_pow2_adds((k - 1) as nat, 1);
            lemma_pow2_pos((k - 1) as nat);
        }
        if k >= 25 {
            proof {
                if ((k - 1) as nat) > 24 {
                    lemma_pow2_strictly_increases(24, (k - 1) as nat);
                }
                lemma_basic_div((frac + pow2((k - 1) as nat)) as int, pow2(k as nat) as int);
            }
            mag = 0;
        } else {
            let half: u64 = pow2_u64((k - 1) as u64);
            let p: u64 = pow2_u64(k as u64);
            proof {
                if ((k - 1) as nat) < 24 {
                    lemma_pow2_strictly_increases((k - 1) as nat, 24);
                }
                lemma_div_is_ordered_by_denominator(
                    (frac + pow2((k - 1) as nat)) as int,
                    2,
                    pow2(k as nat) as int,
                );
            }
            mag = (frac + half) / p;
        }
    }
    proof {
        assert(fixed_mag_of(exp, man) == mag);
    }
    if sign == 1 {
        Some(-(mag as i64))
    } else {
        Some(mag as i64)
    }
}

} // verus!
