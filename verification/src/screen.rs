//! The pixel buffer and the conversion pass.
//!
//! A `Screen` owns a row-major RGBA byte buffer of a fixed width together
//! with the palette of one conversion pass. `apply_palette_dithered` rewrites
//! every whole pixel in place with the palette color the nearest-two lookup
//! and the dither decision pick for its position, leaving each pixel's alpha
//! byte — and any trailing bytes that do not form a whole pixel — untouched.

use vstd::prelude::*;

use crate::dither::{dither, dither_spec};
use crate::palette::{
    alternative_spec, closest_spec, mix_den_spec, mix_num_spec, ColorMix, Palette,
};

verus! {

/// Why a screen could not be built.
#[derive(Debug, Clone, Copy, PartialEq, Eq, Structural)]
pub enum ScreenError {
    /// The width was zero: pixel positions would be undefined.
    ZeroWidth,
    /// The buffer does not hold a whole number of four-byte pixel rows of
    /// the given width.
    SizeMismatch,
    /// The buffer holds more pixels than a conversion pass can address.
    TooLarge,
}

/// The color a conversion pass writes into channel `k` (0 = red, 1 = green,
/// 2 = blue) of pixel `i`, for a pixel that held the channels `pr`, `pg`,
/// `pb`: the dither decision at the pixel's position between the two nearest
/// palette entries.
pub open spec fn out_channel(
    colors: Seq<[u8; 3]>,
    width: int,
    i: int,
    pr: u8,
    pg: u8,
    pb: u8,
    k: int,
) -> u8 {
    dither_spec(
        i % width,
        i / width,
        closest_spec(colors, pr, pg, pb),
        alternative_spec(colors, pr, pg, pb),
        mix_num_spec(colors, pr, pg, pb),
        mix_den_spec(colors, pr, pg, pb),
    )[k]
}

/// The whole buffer after a conversion pass: every whole pixel's three color
/// bytes are rewritten from its own old value and its own position, its
/// alpha byte kept, and any trailing bytes short of a whole pixel kept.
pub open spec fn dithered_buffer(colors: Seq<[u8; 3]>, width: int, buf: Seq<u8>) -> Seq<u8> {
    Seq::new(
        buf.len(),
        |j: int|
            {
                let i = j / 4;
                let k = j % 4;
                if j < (buf.len() / 4) * 4 && k != 3 {
                    out_channel(colors, width, i, buf[4 * i], buf[4 * i + 1], buf[4 * i + 2], k)
                } else {
                    buf[j]
                }
            },
    )
}

/// A fixed-width, row-major RGBA pixel buffer and the palette of one
/// conversion pass.
#[derive(Debug)]
pub struct Screen {
    pub width: usize,
    pub buffer: Vec<u8>,
    pub palette: Palette,
}

impl Screen {
    /// What a conversion pass needs of a screen: a positive width, a
    /// non-empty palette, and a pixel count that pixel positions can
    /// address.
    pub open spec fn wf(&self) -> bool {
        self.width >= 1 && self.palette.wf() && (self.buffer@.len() as int) / 4 <= i32::MAX as int
    }

    /// The constructed invariant: the buffer holds a whole number of
    /// four-byte pixel rows of the screen's width.
    pub open spec fn shaped(&self) -> bool {
        (self.buffer@.len() as int) % 4 == 0 && ((self.buffer@.len() as int) / 4) % (self.width as int) == 0
    }

    /// Wraps a decoded raster in a screen. A zero width, a buffer that is
    /// not a whole number of four-byte pixel rows of that width, or a buffer
    /// with more pixels than a pass can address is rejected here, at
    /// construction, never deferred into the conversion pass.
    pub fn new(width: usize, buffer: Vec<u8>, palette: Palette) -> (r: Result<Screen, ScreenError>)
        requires
            palette.wf(),
        ensures
            r matches Ok(s) ==> s.wf() && s.shaped() && s.width == width && s.buffer@ == buffer@
                && s.palette == palette,
            r matches Err(e) ==> {
                &&& (e == ScreenError::ZeroWidth <==> width == 0)
                &&& (e == ScreenError::SizeMismatch <==> width >= 1 && !((buffer@.len() as int) % 4 == 0 && ((
                buffer@.len() as int) / 4) % (width as int) == 0))
                &&& (e == ScreenError::TooLarge <==> width >= 1 && (buffer@.len() as int) % 4 == 0 && ((
                buffer@.len() as int) / 4) % (width as int) == 0 && buffer@.len() / 4 > i32::MAX as int)
            },
            r is Ok <==> width >= 1 && (buffer@.len() as int) % 4 == 0 && ((buffer@.len() as int) / 4) % (
            width as int) == 0 && (buffer@.len() as int) / 4 <= i32::MAX as int,
    {
        if width == 0 {
            return Err(ScreenError::ZeroWidth);
        }
        let pixels = buffer.len() / 4;
        if !(buffer.len() % 4 == 0 && pixels % width == 0) {
            return Err(ScreenError::SizeMismatch);
        }
        if pixels > 0x7fff_ffff {
            return Err(ScreenError::TooLarge);
        }
        Ok(Screen { width, buffer, palette })
    }

    /// The buffer's height in whole pixel rows.
    pub fn height(&self) -> (h: usize)
        requires
            self.width >= 1,
        ensures
            h == (self.buffer@.len() as int) / 4 / (self.width as int),
    {
        self.buffer.len() / 4 / self.width
    }

    /// One conversion pass: rewrites every whole pixel in place with the
    /// dither decision between the two palette entries nearest to it, from
    /// the pixel's own old value and position alone. Alpha bytes pass
    /// through untouched, trailing bytes short of a whole pixel are skipped,
    /// and the buffer's length never changes.
    pub fn apply_palette_dithered(&mut self)
        requires
            old(self).wf(),
        ensures
            final(self).width == old(self).width,
            final(self).palette == old(self).palette,
            final(self).buffer@.len() == old(self).buffer@.len(),
            final(self).buffer@ == dithered_buffer(
                old(self).palette@,
                old(self).width as int,
                old(self).buffer@,
            ),
    {
        let ghost orig: Seq<u8> = self.buffer@;
        let n_pixels = self.buffer.len() / 4;
        let mut i: usize = 0;
        while i < n_pixels
            invariant
                self.wf(),
                self.width == old(self).width,
                self.palette == old(self).palette,
                orig == old(self).buffer@,
                self.buffer@.len() == orig.len(),
                n_pixels == orig.len() / 4,
                4 * (n_pixels as int) <= usize::MAX as int,
                0 <= i <= n_pixels,
                forall|j: int|
                    0 <= j < 4 * i ==> self.buffer@[j] == dithered_buffer(
                        old(self).palette@,
                        old(self).width as int,
                        orig,
                    )[j],
                forall|j: int| 4 * i <= j < orig.len() ==> self.buffer@[j] == orig[j],
            decreases n_pixels - i,
        {
            proof {
                vstd::arithmetic::div_mod::lemma_fundamental_div_mod(orig.len() as int, 4);
                vstd::arithmetic::div_mod::lemma_mod_bound(orig.len() as int, 4);
            }
            let base = 4 * i;
            let pr = self.buffer[base];
            let pg = self.buffer[base + 1];
            let pb = self.buffer[base + 2];
            let pa = self.buffer[base + 3];
            proof {
                vstd::arithmetic::div_mod::lemma_mod_decreases(
                    i as nat,
                    self.width as nat,
                );
            }
            let x: i32 = (i % self.width) as i32;
            let y: i32 = (i / self.width) as i32;
            let cm: ColorMix = self.palette.find_closest(pr, pg, pb, pa);
            let out = dither(x, y, cm.closest, cm.alternative, cm.mix_num, cm.mix_den);
            self.buffer[base] = out[0];
            self.buffer[base + 1] = out[1];
            self.buffer[base + 2] = out[2];
            proof {
                assert((4 * i as int + 0) / 4 == i as int && (4 * i as int + 0) % 4 == 0)
                    by (nonlinear_arith);
                assert((4 * i as int + 1) / 4 == i as int && (4 * i as int + 1) % 4 == 1)
                    by (nonlinear_arith);
                assert((4 * i as int + 2) / 4 == i as int && (4 * i as int + 2) % 4 == 2)
                    by (nonlinear_arith);
                assert((4 * i as int + 3) / 4 == i as int && (4 * i as int + 3) % 4 == 3)
                    by (nonlinear_arith);
            }
            i += 1;
        }
        proof {
            assert(self.buffer@ =~= dithered_buffer(
                old(self).palette@,
                old(self).width as int,
                orig,
            ));
        }
    }
}

} // verus!
