//! A palette-reduction engine: maps every pixel of an RGBA raster onto a small
//! fixed palette, using a perceptual (CIEDE2000) nearest-two search and an
//! ordered-dither decision to approximate shades the palette lacks.

pub mod distance;
pub mod dither;
pub mod palette;
pub mod palettes;
pub mod screen;

pub use distance::distance;
pub use dither::dither;
pub use palette::{ColorMix, Palette, PaletteError};
pub use palettes::{JsonPalette, JsonPalettes};
pub use screen::{Screen, ScreenError};
