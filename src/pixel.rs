use vstd::prelude::*;
use vstd::arithmetic::div_mod::{lemma_fundamental_div_mod, lemma_mod_pos_bound};
use vstd::arithmetic::power2::{lemma2_to64, pow2};
use vstd::bits::lemma_u32_shr_is_div;
use crate::scalar::{is_nan_value, is_negative_signed, magnitude, Scalar};

verus! {

/// Mask of the fraction bits of a binary32 bit pattern.
pub const FRACTION_MASK: u32 = 0x007f_ffff;

/// The implicit leading bit of a normal binary32 significand.
pub const HIDDEN_BIT: u32 = 0x0080_0000;

/// The biased exponent: 127 for values in [1, 2), each step doubling.
pub open spec fn biased_exponent(s: Scalar) -> u32 {
    magnitude(s) >> 23u32
}

/// The significand of a normal value, leading bit included. The value is
/// `significand * 2^(biased_exponent - 150)`.
pub open spec fn significand(s: Scalar) -> u32 {
    (s.bits & FRACTION_MASK) | HIDDEN_BIT
}

/// A value that truncates to a byte without saturating: at least 1, below 256.
pub open spec fn in_byte_range(s: Scalar) -> bool {
    !is_nan_value(s) && !is_negative_signed(s) && 127 <= biased_exponent(s) < 135
}

/// The byte a color channel is written as: the value truncated toward zero
/// and saturated to [0, 255]. A NaN gives 0.
pub fn channel_byte(value: Scalar) -> (r: u8)
    ensures
        is_nan_value(value) || is_negative_signed(value) || biased_exponent(value) < 127 ==> r == 0,
        !is_nan_value(value) && !is_negative_signed(value) && biased_exponent(value) >= 135 ==> r
            == 255,
        in_byte_range(value) ==> r as nat * pow2((150 - biased_exponent(value)) as nat)
            <= significand(value) < (r as nat + 1) * pow2((150 - biased_exponent(value)) as nat),
{
    let m = value.bits & 0x7fff_ffff;
    if m > 0x7f80_0000 || value.bits & 0x8000_0000 != 0 {
        return 0;
    }
    let e = m >> 23;
    if e < 127 {
        0
    } else if e >= 135 {
        255
    } else {
        let sig = (value.bits & FRACTION_MASK) | HIDDEN_BIT;
        let shift: u32 = 150 - e;
        let v = sig >> shift;
        proof {
            let b = value.bits;
            assert((b & 0x007f_ffffu32) | 0x0080_0000u32 < 0x0100_0000u32) by (bit_vector);
            assert(shift >= 16u32 && sig < 0x0100_0000u32 ==> sig >> shift < 256u32)
                by (bit_vector);
            lemma_u32_shr_is_div(sig, shift);
            lemma2_to64();
            let p = pow2(shift as nat) as int;
            assert(p > 0);
            lemma_fundamental_div_mod(sig as int, p);
            lemma_mod_pos_bound(sig as int, p);
            assert((v as int) * p <= (sig as int) && (sig as int) < ((v as int) + 1) * p)
                by (nonlinear_arith)
                requires
                    v as int == (sig as int) / p,
                    sig as int == p * ((sig as int) / p) + (sig as int) % p,
                    0 <= (sig as int) % p < p,
            ;
        }
        v as u8
    }
}

} // verus!
