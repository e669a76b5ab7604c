//! The palette catalog: named palettes grouped by size class, as a palette
//! catalog file lists them. Each entry carries a display name, an author and
//! the palette's colors as hexadecimal strings, ready for `Palette::new`.

use vstd::prelude::*;

verus! {

/// One named palette of a catalog: its colors are six-digit hexadecimal
/// strings.
pub struct JsonPalette {
    pub name: String,
    pub author: String,
    pub colors: Vec<String>,
}

/// A whole catalog, grouped by palette size class, in catalog order within
/// each group. The last group holds the palettes of more than 64 colors.
pub struct JsonPalettes {
    pub bit2: Vec<JsonPalette>,
    pub bit3: Vec<JsonPalette>,
    pub bit4: Vec<JsonPalette>,
    pub bit5: Vec<JsonPalette>,
    pub bit6: Vec<JsonPalette>,
    pub bit7: Vec<JsonPalette>,
    pub bit8: Vec<JsonPalette>,
    pub bit9: Vec<JsonPalette>,
    pub bit10: Vec<JsonPalette>,
    pub bit11: Vec<JsonPalette>,
    pub bit12: Vec<JsonPalette>,
    pub bit13: Vec<JsonPalette>,
    pub bit14: Vec<JsonPalette>,
    pub bit15: Vec<JsonPalette>,
    pub bit16: Vec<JsonPalette>,
    pub bit20: Vec<JsonPalette>,
    pub bit24: Vec<JsonPalette>,
    pub bit28: Vec<JsonPalette>,
    pub bit32: Vec<JsonPalette>,
    pub bit36: Vec<JsonPalette>,
    pub bit40: Vec<JsonPalette>,
    pub bit44: Vec<JsonPalette>,
    pub bit48: Vec<JsonPalette>,
    pub bit52: Vec<JsonPalette>,
    pub bit56: Vec<JsonPalette>,
    pub bit60: Vec<JsonPalette>,
    pub bit64: Vec<JsonPalette>,
    pub more: Vec<JsonPalette>,
}

impl JsonPalettes {
    /// How many palettes the catalog holds, over all size classes.
    pub open spec fn total_spec(&self) -> int {
        (self.bit2@.len() as int) + self.bit3@.len() + self.bit4@.len() + self.bit5@.len()
            + self.bit6@.len() + self.bit7@.len() + self.bit8@.len() + self.bit9@.len()
            + self.bit10@.len() + self.bit11@.len() + self.bit12@.len() + self.bit13@.len()
            + self.bit14@.len() + self.bit15@.len() + self.bit16@.len() + self.bit20@.len()
            + self.bit24@.len() + self.bit28@.len() + self.bit32@.len() + self.bit36@.len()
            + self.bit40@.len() + self.bit44@.len() + self.bit48@.len() + self.bit52@.len()
            + self.bit56@.len() + self.bit60@.len() + self.bit64@.len() + self.more@.len()
    }

    /// Counts the palettes of every size class.
    pub fn len(&self) -> (n: usize)
        requires
            self.total_spec() <= usize::MAX,
        ensures
            n == self.total_spec(),
    {
        self.bit2.len() + self.bit3.len() + self.bit4.len() + self.bit5.len() + self.bit6.len()
            + self.bit7.len() + self.bit8.len() + self.bit9.len() + self.bit10.len()
            + self.bit11.len() + self.bit12.len() + self.bit13.len() + self.bit14.len()
            + self.bit15.len() + self.bit16.len() + self.bit20.len() + self.bit24.len()
            + self.bit28.len() + self.bit32.len() + self.bit36.len() + self.bit40.len()
            + self.bit44.len() + self.bit48.len() + self.bit52.len() + self.bit56.len()
            + self.bit60.len() + self.bit64.len() + self.more.len()
    }
}

} // verus!
