use palette_dither::{dither, distance, Palette, PaletteError, Screen, ScreenError};

/// The fixed-point encoding a distance is expected to get: the metric's
/// value scaled by 2^23, truncated. Exact in f64 for any normal f32.
fn fixed_expect(d: f32) -> u32 {
    ((d as f64) * 8388608.0).floor() as u32
}

fn hex_palette(colors: &[&str]) -> Palette {
    let owned: Vec<String> = colors.iter().map(|c| c.to_string()).collect();
    Palette::new(&owned).expect("palette should build")
}

#[test]
fn distance_of_identical_colors_is_zero() {
    assert_eq!(distance(&[0, 0, 0], &[0, 0, 0]), 0);
    assert_eq!(distance(&[255, 255, 255], &[255, 255, 255]), 0);
    assert_eq!(distance(&[17, 34, 51], &[17, 34, 51]), 0);
    assert_eq!(distance(&[128, 128, 128], &[128, 128, 128]), 0);
}

#[test]
fn distance_matches_the_metric() {
    // Black and white sit 100 apart in CIEDE2000; the encoding must carry
    // the metric's value, not echo its inputs.
    let d = distance(&[0, 0, 0], &[255, 255, 255]);
    let reference = delta_e::DE2000::from_rgb(&[0, 0, 0], &[255, 255, 255]);
    assert_eq!(d, fixed_expect(reference));
    let approx = (d as f64) / 8388608.0;
    assert!((approx - 100.0).abs() < 0.5, "got {approx}");
}

#[test]
fn distance_is_positive_for_different_colors() {
    assert!(distance(&[10, 20, 30], &[200, 100, 50]) > 0);
    assert!(distance(&[0, 0, 0], &[1, 0, 0]) > 0);
}

#[test]
fn dither_is_deterministic() {
    let a = [1, 2, 3];
    let b = [4, 5, 6];
    for x in -5..5 {
        for y in -5..5 {
            let first = dither(x, y, a, b, 5, 7);
            let second = dither(x, y, a, b, 5, 7);
            assert_eq!(first, second);
        }
    }
}

#[test]
fn dither_with_zero_mix_always_keeps_main() {
    let a = [10, 20, 30];
    let b = [40, 50, 60];
    for x in -20..20 {
        for y in -20..20 {
            assert_eq!(dither(x, y, a, b, 0, 1), a);
        }
    }
}

#[test]
fn dither_with_unit_mix_always_yields_alternative() {
    // A ratio of exactly 1 never lies strictly below any threshold, the
    // largest being 9/9.
    let a = [10, 20, 30];
    let b = [40, 50, 60];
    for x in -20..20 {
        for y in -20..20 {
            assert_eq!(dither(x, y, a, b, 1, 1), b);
        }
    }
}

#[test]
fn dither_threshold_decides_at_half_mix() {
    let a = [1, 1, 1];
    let b = [9, 9, 9];
    // At (0, 0) the table entry is 1: a half mix exceeds 1/9.
    assert_eq!(dither(0, 0, a, b, 1, 2), b);
    // At (4, 0) the table entry is 8: a half mix lies below 8/9.
    assert_eq!(dither(4, 0, a, b, 1, 2), a);
}

#[test]
fn dither_monotonic_in_mix() {
    let a = [1, 1, 1];
    let b = [9, 9, 9];
    // Wherever some ratio keeps the main color, every smaller ratio does too.
    for x in -10..10 {
        for y in -10..10 {
            for den in 1u32..10 {
                let mut seen_main = false;
                for num in (0..=den).rev() {
                    let out = dither(x, y, a, b, num, den);
                    if seen_main {
                        assert_eq!(out, a, "flip at ({x},{y}) {num}/{den}");
                    } else if out == a {
                        seen_main = true;
                    }
                }
            }
        }
    }
}

#[test]
fn dither_index_spans_negatives_without_panic() {
    let a = [0, 0, 0];
    let b = [255, 255, 255];
    let extremes = [i32::MIN, -1000001, -3, 0, 3, 1000001, i32::MAX];
    for &x in &extremes {
        for &y in &extremes {
            let out = dither(x, y, a, b, 1, 2);
            assert!(out == a || out == b);
        }
    }
}

#[test]
fn find_closest_mid_gray_between_black_and_white() {
    // Mid-gray against a black-and-white palette: the two candidates are the
    // two entries, nearly equidistant, so the mix ratio is close to 1.
    let palette = hex_palette(&["000000", "FFFFFF"]);
    let m = palette.find_closest(0x80, 0x80, 0x80, 0xFF);
    let black = [0u8, 0, 0];
    let white = [255u8, 255, 255];
    let d_black = delta_e::DE2000::from_rgb(&[0x80, 0x80, 0x80], &[0, 0, 0]);
    let d_white = delta_e::DE2000::from_rgb(&[0x80, 0x80, 0x80], &[255, 255, 255]);
    let (near, far, d_near, d_far) = if d_black < d_white {
        (black, white, d_black, d_white)
    } else {
        (white, black, d_white, d_black)
    };
    assert_eq!(m.closest, near);
    assert_eq!(m.alternative, far);
    assert_eq!(m.mix_num, fixed_expect(d_near));
    assert_eq!(m.mix_den, fixed_expect(d_far));
    let mix = m.mix_num as f64 / m.mix_den as f64;
    assert!(0.7 < mix && mix <= 1.0, "mix {mix}");

    // The dither decision is one fixed color per position, and the pattern
    // disperses: across the first table period both candidates appear.
    let first = dither(0, 0, m.closest, m.alternative, m.mix_num, m.mix_den);
    assert_eq!(first, dither(0, 0, m.closest, m.alternative, m.mix_num, m.mix_den));
    let mut saw_near = false;
    let mut saw_far = false;
    for x in 0..9 {
        let out = dither(x, 0, m.closest, m.alternative, m.mix_num, m.mix_den);
        if out == near {
            saw_near = true;
        }
        if out == far {
            saw_far = true;
        }
    }
    assert!(saw_near && saw_far);
}

#[test]
fn find_closest_single_entry_palette() {
    // A single-entry palette always answers with that entry, twice, at a
    // mix ratio of exactly 1, and the dither decision cannot escape it.
    let palette = hex_palette(&["112233"]);
    let entry = [0x11, 0x22, 0x33];
    for query in [[0u8, 0, 0], [0x11, 0x22, 0x33], [200, 13, 250]] {
        let m = palette.find_closest(query[0], query[1], query[2], 0);
        assert_eq!(m.closest, entry);
        assert_eq!(m.alternative, entry);
        assert_eq!(m.mix_num, m.mix_den);
        assert!(m.mix_den >= 1);
        for x in -3..3 {
            for y in -3..3 {
                assert_eq!(dither(x, y, m.closest, m.alternative, m.mix_num, m.mix_den), entry);
            }
        }
    }
}

#[test]
fn find_closest_exact_match_has_zero_mix() {
    let palette = hex_palette(&["000000", "FFFFFF", "FF0000"]);
    let m = palette.find_closest(255, 0, 0, 0);
    assert_eq!(m.closest, [255, 0, 0]);
    assert_eq!(m.mix_num, 0);
    assert!(m.mix_den >= 1);
}

#[test]
fn find_closest_ties_keep_the_earlier_entry() {
    // Duplicate entries are at identical distances; the strict comparisons
    // must keep the first as closest and the second as alternative.
    let palette = hex_palette(&["336699", "336699", "000000"]);
    let m = palette.find_closest(0x33, 0x66, 0x99, 0);
    assert_eq!(m.closest, [0x33, 0x66, 0x99]);
    assert_eq!(m.alternative, [0x33, 0x66, 0x99]);
    // Both distances are zero: the normalized ratio selects the closest.
    assert_eq!(m.mix_num, 0);
    assert_eq!(dither(0, 0, m.closest, m.alternative, m.mix_num, m.mix_den), m.closest);
}

#[test]
fn palette_new_rejects_empty_list() {
    let empty: Vec<String> = Vec::new();
    assert_eq!(Palette::new(&empty).unwrap_err(), PaletteError::Empty);
}

#[test]
fn palette_new_rejects_malformed_colors() {
    let short = vec!["12345".to_string()];
    assert_eq!(Palette::new(&short).unwrap_err(), PaletteError::InvalidColor);
    let bad_digit = vec!["112233".to_string(), "ggaabb".to_string()];
    assert_eq!(Palette::new(&bad_digit).unwrap_err(), PaletteError::InvalidColor);
}

#[test]
fn palette_new_parses_hex_entries() {
    let palette = hex_palette(&["000000", "FFffFF", "1a2B3c", "11223344"]);
    assert_eq!(palette.len(), 4);
    assert_eq!(palette.color_at(0), [0, 0, 0]);
    assert_eq!(palette.color_at(1), [255, 255, 255]);
    assert_eq!(palette.color_at(2), [0x1a, 0x2b, 0x3c]);
    // Characters past the sixth are ignored.
    assert_eq!(palette.color_at(3), [0x11, 0x22, 0x33]);
}

#[test]
fn screen_new_validates_shape() {
    let palette = hex_palette(&["000000"]);
    assert_eq!(
        Screen::new(0, vec![0; 8], hex_palette(&["000000"])).unwrap_err(),
        ScreenError::ZeroWidth
    );
    assert_eq!(
        Screen::new(2, vec![0; 7], hex_palette(&["000000"])).unwrap_err(),
        ScreenError::SizeMismatch
    );
    assert_eq!(
        Screen::new(2, vec![0; 12], hex_palette(&["000000"])).unwrap_err(),
        ScreenError::SizeMismatch
    );
    let screen = Screen::new(2, vec![0; 16], palette).expect("shape fits");
    assert_eq!(screen.width, 2);
    assert_eq!(screen.buffer.len(), 16);
}

#[test]
fn apply_palette_dithered_keeps_length_and_alpha() {
    let palette = hex_palette(&["000000", "FFFFFF"]);
    let buffer = vec![
        10, 10, 10, 200, // dark pixel, alpha 200
        240, 240, 240, 7, // light pixel, alpha 7
        128, 128, 128, 0, // mid pixel, alpha 0
        0, 0, 0, 255, // black pixel, alpha 255
    ];
    let mut screen = Screen::new(2, buffer.clone(), palette).unwrap();
    screen.apply_palette_dithered();
    assert_eq!(screen.buffer.len(), buffer.len());
    let black = [0u8, 0, 0];
    let white = [255u8, 255, 255];
    for i in 0..4 {
        let px = [
            screen.buffer[4 * i],
            screen.buffer[4 * i + 1],
            screen.buffer[4 * i + 2],
        ];
        assert!(px == black || px == white, "pixel {i} is {px:?}");
        assert_eq!(screen.buffer[4 * i + 3], buffer[4 * i + 3], "alpha of pixel {i}");
    }
    // Confident matches keep their nearest entry.
    assert_eq!(&screen.buffer[0..3], &black);
    assert_eq!(&screen.buffer[4..7], &white);
    // An exact palette hit never changes.
    assert_eq!(&screen.buffer[12..15], &black);
}

#[test]
fn apply_palette_dithered_skips_trailing_bytes() {
    // Two whole pixels and three stray bytes: the pass rewrites the pixels
    // and leaves the malformed tail exactly as it was.
    let palette = hex_palette(&["000000", "FFFFFF"]);
    let mut screen = Screen {
        width: 2,
        buffer: vec![250, 250, 250, 9, 5, 5, 5, 8, 77, 88, 99],
        palette,
    };
    screen.apply_palette_dithered();
    assert_eq!(screen.buffer.len(), 11);
    assert_eq!(&screen.buffer[0..3], &[255, 255, 255]);
    assert_eq!(screen.buffer[3], 9);
    assert_eq!(&screen.buffer[4..7], &[0, 0, 0]);
    assert_eq!(screen.buffer[7], 8);
    assert_eq!(&screen.buffer[8..11], &[77, 88, 99]);
}

#[test]
fn screen_height_derives_from_buffer() {
    let palette = hex_palette(&["000000"]);
    let screen = Screen::new(3, vec![0; 3 * 5 * 4], palette).unwrap();
    assert_eq!(screen.height(), 5);
}
