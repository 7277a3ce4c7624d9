//! The background image: an immutable 8-bit RGB raster, and the perceptual
//! relative-brightness formula through which the simulator reads it.

use vstd::prelude::*;
use vstd::arithmetic::div_mod::lemma_div_is_ordered;
use vstd::arithmetic::div_mod::lemma_div_pos_is_pos;
use crate::ConfigError;
use crate::fixed::is_isqrt;
use crate::fixed::isqrt;
use crate::fixed::spec_isqrt;

verus! {

/// The largest raster edge the sampler supports, in pixels.
pub const RASTER_DIM_MAX: u32 = 10000;

/// An immutable RGB raster: `height` rows of `width` pixels, three bytes
/// (red, green, blue) per pixel, in row-major order.
#[derive(Debug)]
pub struct Raster {
    width: u32,
    height: u32,
    data: Vec<u8>,
}

/// The weighted sum of the squared, normalized channels, in squared
/// milli-units: 1000000 * (0.299 r^2 + 0.587 g^2 + 0.114 b^2) / 255^2.
pub open spec fn spec_brightness_sq_milli(red: u8, green: u8, blue: u8) -> int {
    (299 * (red as int) * (red as int) + 587 * (green as int) * (green as int) + 114 * (blue as int)
        * (blue as int)) * 1000000 / 65025000
}

/// The perceptual relative brightness of an RGB pixel, in milli-units:
/// the integer square root of the weighted squared-channel sum.
pub open spec fn spec_brightness(red: u8, green: u8, blue: u8) -> int {
    spec_isqrt(spec_brightness_sq_milli(red, green, blue))
}

/// Relative brightness of one pixel, sqrt(0.299 r^2 + 0.587 g^2 + 0.114 b^2)
/// over channels normalized to [0, 1], scaled to milli-units and rounded
/// down.  (255, 255, 255) gives exactly 1000 and (0, 0, 0) exactly 0.
pub fn calculate_relative_brightness(red: u8, green: u8, blue: u8) -> (v: i64)
    ensures
        v == spec_brightness(red, green, blue),
        is_isqrt(spec_brightness_sq_milli(red, green, blue), v as int),
        0 <= v <= 1000,
{
    let r = red as u64;
    let g = green as u64;
    let b = blue as u64;
    assert(299 * r * r <= 19442475 && 587 * g * g <= 38169675 && 114 * b * b <= 7412850)
        by (nonlinear_arith)
        requires
            r <= 255,
            g <= 255,
            b <= 255,
    {
    }
    let num: u64 = 299 * r * r + 587 * g * g + 114 * b * b;
    let scaled: u64 = num * 1000000 / 65025000;
    proof {
        lemma_div_pos_is_pos(num as int * 1000000, 65025000);
        lemma_div_is_ordered(num as int * 1000000, 65025000000000, 65025000);
        assert(65025000000000int / 65025000int == 1000000);
    }
    let v: u64 = isqrt(scaled);
    assert(v <= 1000) by (nonlinear_arith)
        requires
            v * v <= 1000000u64,
    {
    }
    v as i64
}

/// The brightness formula at its corners: pure white is exactly full
/// scale, pure black exactly zero, and pure red the rounded-down root of
/// 0.299 in milli-units.
pub proof fn lemma_brightness_corners()
    ensures
        spec_brightness(255, 255, 255) == 1000,
        spec_brightness(0, 0, 0) == 0,
        spec_brightness(255, 0, 0) == 546,
{
    assert(spec_brightness_sq_milli(255, 255, 255) == 1000000);
    crate::fixed::lemma_isqrt_unique(1000000, 1000);
    assert(spec_brightness_sq_milli(0, 0, 0) == 0);
    crate::fixed::lemma_isqrt_unique(0, 0);
    assert(spec_brightness_sq_milli(255, 0, 0) == 299000);
    crate::fixed::lemma_isqrt_unique(299000, 546);
}

impl Raster {
    #[verifier::type_invariant]
    spec fn wf(&self) -> bool {
        1 <= self.width <= RASTER_DIM_MAX && 1 <= self.height <= RASTER_DIM_MAX && self.data@.len()
            == 3 * self.width * self.height
    }

    /// The raster's width, in pixels.
    pub closed spec fn spec_width(&self) -> int {
        self.width as int
    }

    /// The raster's height, in pixels.
    pub closed spec fn spec_height(&self) -> int {
        self.height as int
    }

    /// The raster's bytes, three per pixel, row-major.
    pub closed spec fn spec_data(&self) -> Seq<u8> {
        self.data@
    }

    /// The (red, green, blue) channels of the pixel at column `px` of row
    /// `py`.
    pub open spec fn spec_pixel(&self, px: int, py: int) -> (u8, u8, u8) {
        let base = 3 * (py * self.spec_width() + px);
        (self.spec_data()[base], self.spec_data()[base + 1], self.spec_data()[base + 2])
    }

    /// Wraps a decoded RGB byte buffer.  The buffer must hold exactly three
    /// bytes per pixel and both edges must be between 1 and
    /// `RASTER_DIM_MAX` pixels.
    pub fn new(width: u32, height: u32, data: Vec<u8>) -> (r: Result<Raster, ConfigError>)
        ensures
            r is Ok <==> (1 <= width <= RASTER_DIM_MAX && 1 <= height <= RASTER_DIM_MAX
                && data@.len() == 3 * width * height),
            r matches Ok(img) ==> img.spec_width() == width && img.spec_height() == height
                && img.spec_data() == data@,
            !(1 <= width <= RASTER_DIM_MAX && 1 <= height <= RASTER_DIM_MAX) ==> r == Result::<
                Raster,
                ConfigError,
            >::Err(ConfigError::BadImageSize),
            (1 <= width <= RASTER_DIM_MAX && 1 <= height <= RASTER_DIM_MAX && data@.len() != 3
                * width * height) ==> r == Result::<Raster, ConfigError>::Err(
                ConfigError::BadImageShape,
            ),
    {
        if width < 1 || width > RASTER_DIM_MAX || height < 1 || height > RASTER_DIM_MAX {
            return Err(ConfigError::BadImageSize);
        }
        assert(3 * (width as int) * (height as int) <= 300000000) by (nonlinear_arith)
            requires
                width <= 10000u32,
                height <= 10000u32,
        {
        }
        let expected: usize = 3 * (width as usize) * (height as usize);
        if data.len() != expected {
            return Err(ConfigError::BadImageShape);
        }
        Ok(Raster { width, height, data })
    }

    /// The raster's width, in pixels.
    pub fn width(&self) -> (w: u32)
        ensures
            w == self.spec_width(),
            1 <= w <= RASTER_DIM_MAX,
    {
        proof {
            use_type_invariant(self);
        }
        self.width
    }

    /// The raster's height, in pixels.
    pub fn height(&self) -> (h: u32)
        ensures
            h == self.spec_height(),
            1 <= h <= RASTER_DIM_MAX,
    {
        proof {
            use_type_invariant(self);
        }
        self.height
    }

    /// The channels of the pixel at column `px` of row `py`.
    pub fn pixel(&self, px: u32, py: u32) -> (rgb: (u8, u8, u8))
        requires
            px < self.spec_width(),
            py < self.spec_height(),
        ensures
            rgb == self.spec_pixel(px as int, py as int),
    {
        proof {
            use_type_invariant(self);
        }
        assert(3 * (py * self.width + px) + 2 < 3 * self.width * self.height && py * self.width
            + px >= 0 && 3 * self.width * self.height <= 300000000) by (nonlinear_arith)
            requires
                px < self.width,
                py < self.height,
                1 <= self.width <= 10000u32,
                1 <= self.height <= 10000u32,
        {
        }
        let base: usize = 3 * ((py as usize) * (self.width as usize) + (px as usize));
        (self.data[base], self.data[base + 1], self.data[base + 2])
    }
}

} // verus!
