use palette_dither::palette::parse_hex_color;
use palette_dither::{JsonPalette, JsonPalettes};

fn named(name: &str, colors: &[&str]) -> JsonPalette {
    JsonPalette {
        name: name.to_string(),
        author: "someone".to_string(),
        colors: colors.iter().map(|c| c.to_string()).collect(),
    }
}

fn empty_catalog() -> JsonPalettes {
    JsonPalettes {
        bit2: Vec::new(),
        bit3: Vec::new(),
        bit4: Vec::new(),
        bit5: Vec::new(),
        bit6: Vec::new(),
        bit7: Vec::new(),
        bit8: Vec::new(),
        bit9: Vec::new(),
        bit10: Vec::new(),
        bit11: Vec::new(),
        bit12: Vec::new(),
        bit13: Vec::new(),
        bit14: Vec::new(),
        bit15: Vec::new(),
        bit16: Vec::new(),
        bit20: Vec::new(),
        bit24: Vec::new(),
        bit28: Vec::new(),
        bit32: Vec::new(),
        bit36: Vec::new(),
        bit40: Vec::new(),
        bit44: Vec::new(),
        bit48: Vec::new(),
        bit52: Vec::new(),
        bit56: Vec::new(),
        bit60: Vec::new(),
        bit64: Vec::new(),
        more: Vec::new(),
    }
}

#[test]
fn catalog_len_sums_every_group() {
    let mut catalog = empty_catalog();
    assert_eq!(catalog.len(), 0);
    catalog.bit2 = vec![named("duo", &["000000", "FFFFFF"])];
    catalog.bit16 = vec![
        named("first", &["112233"]),
        named("second", &["445566"]),
        named("third", &["778899"]),
    ];
    catalog.more = vec![named("huge", &["0A0B0C"]), named("vast", &["0D0E0F"])];
    assert_eq!(catalog.len(), 6);
}

#[test]
fn parse_hex_color_accepts_six_hex_digits() {
    assert_eq!(parse_hex_color("000000"), Some([0, 0, 0]));
    assert_eq!(parse_hex_color("ffffff"), Some([255, 255, 255]));
    assert_eq!(parse_hex_color("FFFFFF"), Some([255, 255, 255]));
    assert_eq!(parse_hex_color("1a2B3c"), Some([0x1a, 0x2b, 0x3c]));
    assert_eq!(parse_hex_color("abcdef99"), Some([0xab, 0xcd, 0xef]));
}

#[test]
fn parse_hex_color_rejects_everything_else() {
    assert_eq!(parse_hex_color(""), None);
    assert_eq!(parse_hex_color("12345"), None);
    assert_eq!(parse_hex_color("12345g"), None);
    assert_eq!(parse_hex_color("#12345"), None);
    assert_eq!(parse_hex_color("ü12345"), None);
}
