//! Ordered (dispersed) dithering.
//!
//! A fixed 9-entry permutation of 1..=9, indexed by a diagonal spatial hash
//! of the pixel position, yields a per-pixel threshold in (0, 1]. A pixel
//! keeps the nearest palette match when the mix ratio lies below its
//! threshold and flips to the second-nearest match otherwise, so that over a
//! neighborhood the proportion of flipped pixels approximates the ratio.

use vstd::prelude::*;

verus! {

/// The dispersion table: a fixed permutation of 1..=9, kept exactly in this
/// order for output-compatibility. Entry `i` gives the threshold numerator
/// over a denominator of 9.
pub open spec fn dispersion_spec(i: int) -> u8 {
    if i == 0 {
        1
    } else if i == 1 {
        7
    } else if i == 2 {
        4
    } else if i == 3 {
        5
    } else if i == 4 {
        8
    } else if i == 5 {
        3
    } else if i == 6 {
        6
    } else if i == 7 {
        2
    } else {
        9
    }
}

/// The dispersion table entry for index `i`.
pub fn dispersion(i: usize) -> (v: u8)
    requires
        i < 9,
    ensures
        v == dispersion_spec(i as int),
{
    if i == 0 {
        1
    } else if i == 1 {
        7
    } else if i == 2 {
        4
    } else if i == 3 {
        5
    } else if i == 4 {
        8
    } else if i == 5 {
        3
    } else if i == 6 {
        6
    } else if i == 7 {
        2
    } else {
        9
    }
}

/// The diagonal spatial hash: `|x - 3y| mod 9`. The stride of 3 sends
/// neighbors along either axis to different table entries.
pub open spec fn dither_index_spec(x: int, y: int) -> int {
    (vstd::math::abs(x - 3 * y) as int) % 9
}

/// Whether the pixel at `(x, y)` keeps the main (nearest) color for the mix
/// ratio `mix_num / mix_den`: exactly when the ratio lies strictly below the
/// position's threshold `dispersion / 9`, compared without division as
/// `9 * mix_num < dispersion * mix_den`.
pub open spec fn dither_picks_main(x: int, y: int, mix_num: u32, mix_den: u32) -> bool {
    9 * (mix_num as int) < (dispersion_spec(dither_index_spec(x, y)) as int) * (mix_den as int)
}

/// The color the dither decision emits at `(x, y)`.
pub open spec fn dither_spec(
    x: int,
    y: int,
    main_color: [u8; 3],
    alternative_color: [u8; 3],
    mix_num: u32,
    mix_den: u32,
) -> [u8; 3] {
    if dither_picks_main(x, y, mix_num, mix_den) {
        main_color
    } else {
        alternative_color
    }
}

/// Deterministically picks `main_color` or `alternative_color` for the pixel
/// at `(x, y)`, given the mix ratio `mix_num / mix_den` of a nearest-two
/// lookup. Positions where the palette match is confident (ratio near 0)
/// keep `main_color`; near-tied positions flip to `alternative_color` in the
/// fixed dispersion pattern.
pub fn dither(
    x: i32,
    y: i32,
    main_color: [u8; 3],
    alternative_color: [u8; 3],
    mix_num: u32,
    mix_den: u32,
) -> (r: [u8; 3])
    ensures
        r == dither_spec(x as int, y as int, main_color, alternative_color, mix_num, mix_den),
{
    let diff: i64 = (x as i64) - 3 * (y as i64);
    let mag: i64 = if diff < 0 {
        -diff
    } else {
        diff
    };
    let idx: usize = (mag % 9) as usize;
    let entry: u8 = dispersion(idx);
    if 9 * (mix_num as u64) < (entry as u64) * (mix_den as u64) {
        main_color
    } else {
        alternative_color
    }
}

/// The spatial hash always lands inside the table, for any integer
/// coordinates, negative ones included.
pub proof fn lemma_dither_index_in_range(x: int, y: int)
    ensures
        0 <= dither_index_spec(x, y) < 9,
{
}

/// The dither decision is deterministic: the emitted color is a function of
/// the position, the two candidates and the mix ratio alone, so two
/// evaluations on identical arguments agree.
pub proof fn lemma_dither_deterministic(
    x: int,
    y: int,
    main_color: [u8; 3],
    alternative_color: [u8; 3],
    mix_num: u32,
    mix_den: u32,
)
    ensures
        dither_spec(x, y, main_color, alternative_color, mix_num, mix_den) == dither_spec(
            x,
            y,
            main_color,
            alternative_color,
            mix_num,
            mix_den,
        ),
{
}

/// The threshold comparison is monotone in the mix ratio: at a fixed
/// position, lowering the numerator of a ratio that already keeps the main
/// color can never flip the decision to the alternative.
pub proof fn lemma_dither_monotonic(x: int, y: int, num1: u32, num2: u32, den: u32)
    requires
        num2 <= num1,
        dither_picks_main(x, y, num1, den),
    ensures
        dither_picks_main(x, y, num2, den),
{
}

} // verus!
