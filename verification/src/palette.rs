//! Palettes and the nearest-two lookup.
//!
//! A palette is an ordered, non-empty list of packed sRGB reference colors,
//! parsed once from six-digit hexadecimal strings. `find_closest` scans the
//! entries in order and returns the nearest and second-nearest entries under
//! the perceptual metric, together with the mix ratio of their distances
//! that drives the dither decision.

use vstd::prelude::*;
use vstd::string::StrSliceExecFns;

use crate::distance::{distance, fixed_of_bits, de2000_bits, SENTINEL};

verus! {

/// Why a palette could not be built.
#[derive(Debug, Clone, Copy, PartialEq, Eq, Structural)]
pub enum PaletteError {
    /// The caller supplied no colors at all.
    Empty,
    /// An entry is not a string of at least six hexadecimal digits.
    InvalidColor,
}

/// A hexadecimal digit's value, or `None` for any other character.
pub open spec fn hex_digit_spec(c: char) -> Option<u8> {
    let v = c as u32;
    if 48 <= v <= 57 {
        Some((v - 48) as u8)
    } else if 97 <= v <= 102 {
        Some((v - 87) as u8)
    } else if 65 <= v <= 70 {
        Some((v - 55) as u8)
    } else {
        None
    }
}

/// Parses one hexadecimal digit (either case).
pub fn hex_digit(c: char) -> (r: Option<u8>)
    ensures
        r == hex_digit_spec(c),
{
    let v = c as u32;
    if 48 <= v && v <= 57 {
        Some((v - 48) as u8)
    } else if 97 <= v && v <= 102 {
        Some((v - 87) as u8)
    } else if 65 <= v && v <= 70 {
        Some((v - 55) as u8)
    } else {
        None
    }
}

/// Whether a string encodes a color: its first six characters are
/// hexadecimal digits. Characters past the sixth are ignored.
pub open spec fn color_ok(s: Seq<char>) -> bool {
    s.len() >= 6 && forall|k: int| 0 <= k < 6 ==> hex_digit_spec(s[k]) is Some
}

/// Channel `k` (0 = red, 1 = green, 2 = blue) of a color string: two
/// hexadecimal digits, high first.
pub open spec fn channel_spec(s: Seq<char>, k: int) -> u8 {
    (16 * hex_digit_spec(s[2 * k])->0 + hex_digit_spec(s[2 * k + 1])->0) as u8
}

/// Parses the first six characters of `s` as a packed color, `None` if `s`
/// is shorter than six characters or one of them is not a hexadecimal digit.
pub fn parse_hex_color(s: &str) -> (r: Option<[u8; 3]>)
    ensures
        (r is Some) == color_ok(s@),
        r is Some ==> (r->0)[0] == channel_spec(s@, 0) && (r->0)[1] == channel_spec(s@, 1) && (
        r->0)[2] == channel_spec(s@, 2),
{
    if s.unicode_len() < 6 {
        return None;
    }
    let d0 = hex_digit(s.get_char(0));
    let d1 = hex_digit(s.get_char(1));
    let d2 = hex_digit(s.get_char(2));
    let d3 = hex_digit(s.get_char(3));
    let d4 = hex_digit(s.get_char(4));
    let d5 = hex_digit(s.get_char(5));
    match (d0, d1, d2, d3, d4, d5) {
        (Some(v0), Some(v1), Some(v2), Some(v3), Some(v4), Some(v5)) => Some(
            [16 * v0 + v1, 16 * v2 + v3, 16 * v4 + v5],
        ),
        _ => None,
    }
}

/// An ordered, non-empty list of packed reference colors. The order is the
/// caller's insertion order; it only matters for tie-breaking in the scan.
#[derive(Debug)]
pub struct Palette {
    colors: Vec<[u8; 3]>,
}

impl View for Palette {
    type V = Seq<[u8; 3]>;

    closed spec fn view(&self) -> Seq<[u8; 3]> {
        self.colors@
    }
}

/// The result of one nearest-two lookup: the nearest (`closest`) and
/// second-nearest (`alternative`) palette entries, and the ratio
/// `mix_num / mix_den` of their distances to the queried color. The ratio
/// always lies in [0, 1]: 0 means an exact match, values near 1 mean the two
/// candidates are nearly equidistant.
pub struct ColorMix {
    pub closest: [u8; 3],
    pub alternative: [u8; 3],
    pub mix_num: u32,
    pub mix_den: u32,
}

/// The perceptual distance from the queried color (channels `r`, `g`, `b`)
/// to palette entry `i`; the query is the metric's first operand.
pub open spec fn entry_dist(colors: Seq<[u8; 3]>, r: u8, g: u8, b: u8, i: int) -> u32 {
    fixed_of_bits(de2000_bits(r, g, b, colors[i][0], colors[i][1], colors[i][2]))
}

/// The state of the nearest-two scan after the first `n` entries: the pair
/// `((closest index, closest distance), (alternative index, alternative
/// distance))`, both started at entry 0 with the sentinel distance. An entry
/// strictly nearer than the current closest displaces it (the old closest
/// becomes the alternative); otherwise one strictly nearer than the current
/// alternative replaces the alternative alone. Strict comparisons keep the
/// earliest entry on ties.
pub open spec fn scan_spec(colors: Seq<[u8; 3]>, r: u8, g: u8, b: u8, n: int) -> (
    (int, u32),
    (int, u32),
)
    decreases n,
{
    if n <= 0 {
        ((0, SENTINEL), (0, SENTINEL))
    } else {
        let prev = scan_spec(colors, r, g, b, n - 1);
        let d = entry_dist(colors, r, g, b, n - 1);
        if d < prev.0.1 {
            ((n - 1, d), prev.0)
        } else if d < prev.1.1 {
            (prev.0, (n - 1, d))
        } else {
            prev
        }
    }
}

/// The nearest palette entry to the queried color (the earliest on ties).
pub open spec fn closest_spec(colors: Seq<[u8; 3]>, r: u8, g: u8, b: u8) -> [u8; 3] {
    colors[scan_spec(colors, r, g, b, colors.len() as int).0.0]
}

/// The second-nearest palette entry; for a single-entry palette, that entry
/// itself.
pub open spec fn alternative_spec(colors: Seq<[u8; 3]>, r: u8, g: u8, b: u8) -> [u8; 3] {
    colors[scan_spec(colors, r, g, b, colors.len() as int).1.0]
}

/// The mix ratio's numerator: the closest distance, normalized so that the
/// ratio is 1 for a single-entry palette (the two candidates coincide) and 0
/// for an exact match (in particular when both distances are 0, where the
/// raw quotient would be undefined, the lookup must resolve to `closest`).
pub open spec fn mix_num_spec(colors: Seq<[u8; 3]>, r: u8, g: u8, b: u8) -> u32 {
    let s = scan_spec(colors, r, g, b, colors.len() as int);
    if colors.len() == 1 {
        1
    } else if s.0.1 == 0 {
        0
    } else {
        s.0.1
    }
}

/// The mix ratio's denominator: the alternative distance, normalized as for
/// `mix_num_spec`.
pub open spec fn mix_den_spec(colors: Seq<[u8; 3]>, r: u8, g: u8, b: u8) -> u32 {
    let s = scan_spec(colors, r, g, b, colors.len() as int);
    if colors.len() == 1 {
        1
    } else if s.0.1 == 0 {
        1
    } else {
        s.1.1
    }
}

/// What the scan guarantees after its first `n` entries: indices in range,
/// the closest distance a real (below-sentinel) distance of its entry and
/// minimal among all scanned entries — the earliest such entry —, the
/// alternative distance at most second, and from the second entry on a real
/// distance of a different entry.
pub proof fn lemma_scan_wf(colors: Seq<[u8; 3]>, r: u8, g: u8, b: u8, n: int)
    requires
        1 <= n <= colors.len(),
    ensures
        0 <= scan_spec(colors, r, g, b, n).0.0 < n,
        0 <= scan_spec(colors, r, g, b, n).1.0 < n,
        scan_spec(colors, r, g, b, n).0.1 <= scan_spec(colors, r, g, b, n).1.1,
        scan_spec(colors, r, g, b, n).0.1 == entry_dist(colors, r, g, b, scan_spec(colors, r, g, b, n).0.0),
        scan_spec(colors, r, g, b, n).0.1 < SENTINEL,
        n >= 2 ==> scan_spec(colors, r, g, b, n).1.1 == entry_dist(colors, r, g, b, scan_spec(colors, r, g, b, n).1.0)
            && scan_spec(colors, r, g, b, n).1.1 < SENTINEL
            && scan_spec(colors, r, g, b, n).1.0 != scan_spec(colors, r, g, b, n).0.0,
        n == 1 ==> scan_spec(colors, r, g, b, n).1.1 == SENTINEL && scan_spec(colors, r, g, b, n).1.0 == 0,
        forall|j: int| 0 <= j < n ==> scan_spec(colors, r, g, b, n).0.1 <= entry_dist(colors, r, g, b, j),
        forall|j: int|
            0 <= j < n && j != scan_spec(colors, r, g, b, n).0.0 ==> scan_spec(
                colors,
                r,
                g,
                b,
                n,
            ).1.1 <= entry_dist(colors, r, g, b, j),
        forall|j: int|
            0 <= j < scan_spec(colors, r, g, b, n).0.0 ==> entry_dist(colors, r, g, b, j) > scan_spec(
                colors,
                r,
                g,
                b,
                n,
            ).0.1,
    decreases n,
{
    reveal_with_fuel(scan_spec, 2);
    crate::distance::lemma_fixed_of_bits_bounded(
        de2000_bits(r, g, b, colors[n - 1][0], colors[n - 1][1], colors[n - 1][2]),
    );
    if n > 1 {
        lemma_scan_wf(colors, r, g, b, n - 1);
    }
}

impl Palette {
    /// A palette is well-formed when it holds at least one color.
    pub open spec fn wf(&self) -> bool {
        self@.len() >= 1
    }

    /// Builds a palette from six-digit hexadecimal color strings (characters
    /// past the sixth are ignored). Rejects an empty list and any entry that
    /// is not such a string: a malformed palette is reported here, at
    /// construction, never during a conversion pass.
    pub fn new(colors: &[String]) -> (r: Result<Palette, PaletteError>)
        ensures
            r matches Ok(p) ==> p.wf() && p@.len() == colors@.len() && (forall|i: int|
                0 <= i < colors@.len() ==> color_ok(colors@[i]@)) && (forall|i: int|
                0 <= i < colors@.len() ==> p@[i][0] == channel_spec(colors@[i]@, 0) && p@[i][1]
                    == channel_spec(colors@[i]@, 1) && p@[i][2] == channel_spec(colors@[i]@, 2)),
            r matches Err(e) ==> (e == PaletteError::Empty <==> colors@.len() == 0),
            (r is Err && colors@.len() >= 1) <==> exists|i: int|
                0 <= i < colors@.len() && !color_ok(colors@[i]@),
    {
        if colors.len() == 0 {
            return Err(PaletteError::Empty);
        }
        let mut parsed: Vec<[u8; 3]> = Vec::new();
        let n = colors.len();
        let mut i: usize = 0;
        while i < n
            invariant
                n == colors@.len(),
                0 <= i <= n,
                parsed@.len() == i,
                forall|j: int| 0 <= j < i ==> color_ok(colors@[j]@),
                forall|j: int|
                    0 <= j < i ==> parsed@[j][0] == channel_spec(colors@[j]@, 0) && parsed@[j][1]
                        == channel_spec(colors@[j]@, 1) && parsed@[j][2] == channel_spec(
                        colors@[j]@,
                        2,
                    ),
            decreases n - i,
        {
            let s: &String = &colors[i];
            match parse_hex_color(s.as_str()) {
                Some(c) => parsed.push(c),
                None => {
                    return Err(PaletteError::InvalidColor);
                },
            }
            i += 1;
        }
        Ok(Palette { colors: parsed })
    }

    /// How many colors the palette holds; always at least one.
    pub fn len(&self) -> (n: usize)
        ensures
            n == self@.len(),
    {
        self.colors.len()
    }

    /// The palette entry at `index`, in insertion order.
    pub fn color_at(&self, index: usize) -> (c: [u8; 3])
        requires
            index < self@.len(),
        ensures
            c == self@[index as int],
    {
        self.colors[index]
    }

    /// Scans every entry in order and returns the nearest and second-nearest
    /// entries to the queried color under the perceptual metric (the
    /// earliest entries on tied distances), and the mix ratio of the two
    /// distances, normalized per `mix_num_spec`. The alpha channel takes no
    /// part in color matching. The ratio always lies in [0, 1].
    pub fn find_closest(&self, r: u8, g: u8, b: u8, _alpha: u8) -> (m: ColorMix)
        requires
            self.wf(),
        ensures
            m.closest == closest_spec(self@, r, g, b),
            m.alternative == alternative_spec(self@, r, g, b),
            m.mix_num == mix_num_spec(self@, r, g, b),
            m.mix_den == mix_den_spec(self@, r, g, b),
            m.mix_num <= m.mix_den,
            1 <= m.mix_den,
    {
        let target: [u8; 3] = [r, g, b];
        let n = self.colors.len();
        let mut closest_color: [u8; 3] = self.colors[0];
        let mut closest_delta: u32 = SENTINEL;
        let mut alternative_color: [u8; 3] = self.colors[0];
        let mut alternative_delta: u32 = SENTINEL;
        let mut i: usize = 0;
        while i < n
            invariant
                self.wf(),
                n == self@.len(),
                0 <= i <= n,
                target[0] == r && target[1] == g && target[2] == b,
                0 <= scan_spec(self@, r, g, b, i as int).0.0 < n,
                0 <= scan_spec(self@, r, g, b, i as int).1.0 < n,
                closest_color == self@[scan_spec(self@, r, g, b, i as int).0.0],
                closest_delta == scan_spec(self@, r, g, b, i as int).0.1,
                alternative_color == self@[scan_spec(self@, r, g, b, i as int).1.0],
                alternative_delta == scan_spec(self@, r, g, b, i as int).1.1,
            decreases n - i,
        {
            let delta = distance(&target, &self.colors[i]);
            if delta < closest_delta {
                alternative_color = closest_color;
                alternative_delta = closest_delta;
                closest_color = self.colors[i];
                closest_delta = delta;
            } else if delta < alternative_delta {
                alternative_color = self.colors[i];
                alternative_delta = delta;
            }
            i += 1;
        }
        proof {
            lemma_scan_wf(self@, r, g, b, n as int);
        }
        let (mix_num, mix_den): (u32, u32) = if n == 1 {
            (1, 1)
        } else if closest_delta == 0 {
            (0, 1)
        } else {
            (closest_delta, alternative_delta)
        };
        ColorMix { closest: closest_color, alternative: alternative_color, mix_num, mix_den }
    }
}

/// Nearest-two ordering: after a full scan of any non-empty palette the
/// closest distance never exceeds the alternative distance, and no entry
/// lies nearer to the query than the closest one.
pub proof fn lemma_nearest_two_ordered(colors: Seq<[u8; 3]>, r: u8, g: u8, b: u8)
    requires
        colors.len() >= 1,
    ensures
        scan_spec(colors, r, g, b, colors.len() as int).0.1 <= scan_spec(
            colors,
            r,
            g,
            b,
            colors.len() as int,
        ).1.1,
        forall|j: int|
            0 <= j < colors.len() ==> scan_spec(colors, r, g, b, colors.len() as int).0.1
                <= entry_dist(colors, r, g, b, j),
{
    lemma_scan_wf(colors, r, g, b, colors.len() as int);
}

/// Mix bounds: for any non-empty palette and any query, the mix ratio lies
/// in [0, 1] — its numerator never exceeds its denominator, and the
/// denominator is positive.
pub proof fn lemma_mix_bounds(colors: Seq<[u8; 3]>, r: u8, g: u8, b: u8)
    requires
        colors.len() >= 1,
    ensures
        mix_num_spec(colors, r, g, b) <= mix_den_spec(colors, r, g, b),
        1 <= mix_den_spec(colors, r, g, b),
{
    lemma_scan_wf(colors, r, g, b, colors.len() as int);
}

} // verus!
