//! Perceptual color difference.
//!
//! The CIEDE2000 metric itself comes from the `delta_e` crate; this module
//! carries its result into verified code as a fixed-point integer so that
//! every comparison and ratio downstream is exact integer logic.

use vstd::prelude::*;

verus! {

/// The largest value `fixed_of_bits` can produce: a single-precision
/// significand (24 bits) shifted by the largest accepted exponent (7).
/// Every encoded distance is at most this value.
pub const MAX_FIXED: u32 = 0x7FFF_FF80;

/// Strictly greater than any encoded distance; plays the role of the
/// classic `101.0` sentinel (a value above any real CIEDE2000 output)
/// in the nearest-two scan.
pub const SENTINEL: u32 = 0x8000_0000;

/// The raw IEEE-754 bit pattern of the CIEDE2000 difference between two
/// packed sRGB colors, as `delta_e::DE2000::from_rgb` computes it. The
/// difference is a deterministic function of the six channel values alone.
pub uninterp spec fn de2000_bits(r1: u8, g1: u8, b1: u8, r2: u8, g2: u8, b2: u8) -> u32;

/// Relies on `delta_e::DE2000::from_rgb`: the CIEDE2000 difference between
/// two sRGB colors. It depends on the six channel values alone, and on two
/// identical colors it is exactly `0.0` (bit pattern 0): every difference
/// term of the formula is then `x - x` on equal finite operands, so the
/// final square root is taken of positive zero. The result is handed over
/// as its raw bit pattern.
#[verifier::external_body]
fn de2000_raw(c1: &[u8; 3], c2: &[u8; 3]) -> (d: u32)
    ensures
        d == de2000_bits(c1[0], c1[1], c1[2], c2[0], c2[1], c2[2]),
        c1@ == c2@ ==> d == 0,
{
    delta_e::DE2000::from_rgb(c1, c2).to_bits()
}

/// Reads a single-precision bit pattern as a fixed-point magnitude with 23
/// fractional bits, truncating toward zero. Values below the resolution of
/// the encoding collapse to 0; values of 256 and above, infinities and NaN
/// saturate to `MAX_FIXED`; a set sign bit (the metric never produces a
/// negative value) is read as 0. The encoding is monotone in the magnitude,
/// and linear on the range the metric uses, which is all the nearest-two
/// scan and the dither ratio rely on.
pub open spec fn fixed_of_bits(bits: u32) -> u32 {
    let exp = (bits / 0x80_0000) % 0x100;
    let sig = (bits % 0x80_0000 + 0x80_0000) as u32;
    if bits >= 0x8000_0000 {
        0
    } else if exp >= 135 {
        MAX_FIXED
    } else if exp >= 127 {
        sig << ((exp - 127) as u32)
    } else if exp >= 104 {
        sig >> ((127 - exp) as u32)
    } else {
        0
    }
}

/// Every fixed-point reading lies at or below `MAX_FIXED`, hence strictly
/// below the sentinel.
pub proof fn lemma_fixed_of_bits_bounded(bits: u32)
    ensures
        fixed_of_bits(bits) <= MAX_FIXED,
{
    let exp = ((bits / 0x80_0000) % 0x100) as u32;
    let sig = (bits % 0x80_0000 + 0x80_0000) as u32;
    assert(0 <= bits % 0x80_0000 < 0x80_0000);
    if bits < 0x8000_0000 && 127 <= exp < 135 {
        let sh = (exp - 127) as u32;
        assert(sig < 0x100_0000 && sh <= 7 ==> (sig << sh) <= 0x7FFF_FF80u32) by (bit_vector);
    } else if bits < 0x8000_0000 && 104 <= exp < 127 {
        let sh = (127 - exp) as u32;
        assert(sig < 0x100_0000 && 1 <= sh ==> (sig >> sh) <= 0x7FFF_FF80u32) by (bit_vector);
    }
}

/// The fixed-point reading of `bits`, executable form.
fn fixed_from_bits(bits: u32) -> (r: u32)
    ensures
        r == fixed_of_bits(bits),
        r <= MAX_FIXED,
{
    proof {
        lemma_fixed_of_bits_bounded(bits);
    }
    let exp: u32 = (bits / 0x80_0000) % 0x100;
    let sig: u32 = bits % 0x80_0000 + 0x80_0000;
    if bits >= 0x8000_0000 {
        0
    } else if exp >= 135 {
        MAX_FIXED
    } else if exp >= 127 {
        sig << (exp - 127)
    } else if exp >= 104 {
        sig >> (127 - exp)
    } else {
        0
    }
}

/// The perceptual difference between two packed colors, in the fixed-point
/// encoding: `fixed_of_bits` applied to the metric's bit pattern.
pub open spec fn dist_spec(c1: [u8; 3], c2: [u8; 3]) -> u32 {
    fixed_of_bits(de2000_bits(c1[0], c1[1], c1[2], c2[0], c2[1], c2[2]))
}

/// CIEDE2000 perceptual difference between two packed sRGB colors, as a
/// fixed-point integer (23 fractional bits). Identical colors are at
/// distance exactly 0.
pub fn distance(c1: &[u8; 3], c2: &[u8; 3]) -> (d: u32)
    ensures
        d == dist_spec(*c1, *c2),
        d <= MAX_FIXED,
        c1@ == c2@ ==> d == 0,
{
    let bits = de2000_raw(c1, c2);
    proof {
        if c1@ == c2@ {
            assert(fixed_of_bits(0) == 0);
        }
    }
    fixed_from_bits(bits)
}

} // verus!
