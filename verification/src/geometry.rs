use crate::error::{Error, ErrorKind};
use vstd::prelude::*;

verus! {

/// Width of the medium artifact when the downscale rule applies.
pub const MEDIUM_WIDTH: u32 = 720;

/// Width of the small artifact when the downscale rule applies.
pub const SMALL_WIDTH: u32 = 320;

/// A crop must be strictly taller than this for the downscale rule to apply.
pub const THRESHOLD_HEIGHT: u32 = 576;

/// Whether a crop of the given size is downscaled: strictly wider than the
/// medium width and strictly taller than the threshold height.
pub open spec fn downscales(width: int, height: int) -> bool {
    width > MEDIUM_WIDTH && height > THRESHOLD_HEIGHT
}

/// Height of a crop scaled to `target` width: the ratio is taken in whole
/// percent, rounded down, and the height is scaled by it, rounded down.
pub open spec fn scaled_height(width: int, height: int, target: int) -> int {
    (height * ((target * 100) / width)) / 100
}

/// Computes `scaled_height` for a crop that is wider than the target.
pub fn scale_height(width: u32, height: u32, target: u32) -> (out: u32)
    requires
        0 < target <= MEDIUM_WIDTH,
        target < width,
    ensures
        out == scaled_height(width as int, height as int, target as int),
        out <= height,
{
    let percent: u32 = (target * 100) / width;
    assert(percent < 100) by (nonlinear_arith)
        requires
            percent == (target * 100) / (width as int),
            0 < target < width,
    ;
    assert(height * percent <= height * 100) by (nonlinear_arith)
        requires
            percent < 100,
    ;
    let wide: u64 = (height as u64) * (percent as u64);
    let out: u64 = wide / 100;
    out as u32
}

/// The rectangle to cut out of the source image, in pixels from its top
/// left corner.
#[derive(Clone, Copy, Debug, PartialEq, Eq, Structural)]
pub struct CropRect {
    pub x: u32,
    pub y: u32,
    pub width: u32,
    pub height: u32,
}

impl CropRect {
    /// Whether the rectangle lies inside an image of the given size.
    pub open spec fn within(self, image_width: int, image_height: int) -> bool {
        self.x + self.width <= image_width && self.y + self.height <= image_height
    }

    /// Decides `within` at run time.
    pub fn fits(&self, image_width: u32, image_height: u32) -> (inside: bool)
        ensures
            inside == self.within(image_width as int, image_height as int),
    {
        let right: u64 = self.x as u64 + self.width as u64;
        let bottom: u64 = self.y as u64 + self.height as u64;
        right <= image_width as u64 && bottom <= image_height as u64
    }

    /// Accepts the rectangle if it lies inside the image and rejects it with
    /// a geometry error otherwise. A rectangle that reaches outside is never
    /// clamped.
    pub fn check(&self, image_width: u32, image_height: u32) -> (checked: Result<(), Error>)
        ensures
            checked is Ok <==> self.within(image_width as int, image_height as int),
            checked matches Err(e) ==> e.kind == ErrorKind::Geometry && e.message@
                == OUTSIDE_MESSAGE@,
    {
        if self.fits(image_width, image_height) {
            Ok(())
        } else {
            Err(Error::new(ErrorKind::Geometry, OUTSIDE_MESSAGE))
        }
    }
}

/// The message of the geometry error.
pub const OUTSIDE_MESSAGE: &'static str = "crop rectangle exceeds image bounds.";

/// The sizes of the two derived artifacts.
#[derive(Clone, Copy, Debug, PartialEq, Eq, Structural)]
pub struct DerivedSizes {
    pub medium_width: u32,
    pub medium_height: u32,
    pub small_width: u32,
    pub small_height: u32,
}

/// The sizes derived from a crop of `width` by `height`: scaled down to the
/// two target widths where the downscale rule applies, the crop's own size
/// otherwise.
pub open spec fn derived_sizes(width: u32, height: u32) -> DerivedSizes {
    if downscales(width as int, height as int) {
        DerivedSizes {
            medium_width: MEDIUM_WIDTH,
            medium_height: scaled_height(width as int, height as int, MEDIUM_WIDTH as int) as u32,
            small_width: SMALL_WIDTH,
            small_height: scaled_height(width as int, height as int, SMALL_WIDTH as int) as u32,
        }
    } else {
        DerivedSizes {
            medium_width: width,
            medium_height: height,
            small_width: width,
            small_height: height,
        }
    }
}

/// Computes the sizes of the two artifacts derived from a crop.
pub fn derive_sizes(width: u32, height: u32) -> (sizes: DerivedSizes)
    ensures
        sizes == derived_sizes(width, height),
        sizes.medium_width <= width,
        sizes.medium_height <= height,
        sizes.small_width <= width,
        sizes.small_height <= height,
{
    if width > MEDIUM_WIDTH && height > THRESHOLD_HEIGHT {
        DerivedSizes {
            medium_width: MEDIUM_WIDTH,
            medium_height: scale_height(width, height, MEDIUM_WIDTH),
            small_width: SMALL_WIDTH,
            small_height: scale_height(width, height, SMALL_WIDTH),
        }
    } else {
        DerivedSizes {
            medium_width: width,
            medium_height: height,
            small_width: width,
            small_height: height,
        }
    }
}

/// A crop that is no wider than the medium width, or no taller than the
/// threshold height, is never resized: both derived sizes are the crop's.
pub proof fn lemma_no_upscaling(width: u32, height: u32)
    requires
        width <= MEDIUM_WIDTH || height <= THRESHOLD_HEIGHT,
    ensures
        derived_sizes(width, height).medium_width == width,
        derived_sizes(width, height).medium_height == height,
        derived_sizes(width, height).small_width == width,
        derived_sizes(width, height).small_height == height,
{
}

/// How far a scaled height is from the height that keeps the crop's ratio
/// exactly, `target * height / width`: it never exceeds it, and falls short
/// of it by less than one pixel plus a hundredth of the crop's height.
pub proof fn lemma_scaled_height_deviation(width: int, height: int, target: int)
    requires
        0 < target < width,
        0 <= height,
    ensures
        scaled_height(width, height, target) * width <= target * height,
        100 * (target * height - scaled_height(width, height, target) * width) < width * (height
            + 100),
{
    let percent = (target * 100) / width;
    let out = (height * percent) / 100;
    assert(percent * width <= target * 100 < percent * width + width) by (nonlinear_arith)
        requires
            percent == (target * 100) / width,
            0 < width,
    ;
    assert(0 <= percent) by (nonlinear_arith)
        requires
            percent == (target * 100) / width,
            0 < width,
            0 < target,
    ;
    assert(out * 100 <= height * percent < out * 100 + 100) by (nonlinear_arith)
        requires
            out == (height * percent) / 100,
    ;
    assert(out * width * 100 <= target * height * 100) by (nonlinear_arith)
        requires
            out * 100 <= height * percent,
            percent * width <= target * 100,
            0 <= height,
            0 < width,
            0 <= percent,
    ;
    assert(100 * (target * height - out * width) < width * (height + 100)) by (nonlinear_arith)
        requires
            height * percent < out * 100 + 100,
            target * 100 < percent * width + width,
            0 <= height,
            0 < width,
    ;
}

/// Where the target width is a whole percentage of the crop's width, the
/// scaled height keeps the crop's ratio to within one pixel: it is the
/// exact height `target * height / width` rounded down.
pub proof fn lemma_exact_percent_keeps_ratio(width: int, height: int, target: int)
    requires
        0 < target < width,
        0 <= height,
        (target * 100) % width == 0,
    ensures
        scaled_height(width, height, target) == (target * height) / width,
        0 <= target * height - scaled_height(width, height, target) * width < width,
{
    let percent = (target * 100) / width;
    let out = (height * percent) / 100;
    assert(percent * width == target * 100) by (nonlinear_arith)
        requires
            percent == (target * 100) / width,
            (target * 100) % width == 0,
            0 < width,
    ;
    assert(out * 100 <= height * percent < out * 100 + 100) by (nonlinear_arith)
        requires
            out == (height * percent) / 100,
    ;
    assert(out * width <= target * height < out * width + width) by (nonlinear_arith)
        requires
            out * 100 <= height * percent < out * 100 + 100,
            percent * width == target * 100,
            0 < width,
    ;
    assert(out == (target * height) / width) by (nonlinear_arith)
        requires
            out * width <= target * height < out * width + width,
            0 < width,
    ;
}

/// Where the downscale rule applies, the derived images are exactly as wide
/// as their targets, and their heights are the scaled heights: no taller
/// than the crop's ratio asks for, and short of it by less than one pixel
/// plus a hundredth of the crop's height.
pub proof fn lemma_downscaled_ratio(width: u32, height: u32)
    requires
        downscales(width as int, height as int),
    ensures
        derived_sizes(width, height).medium_width == MEDIUM_WIDTH,
        derived_sizes(width, height).small_width == SMALL_WIDTH,
        derived_sizes(width, height).medium_height == scaled_height(
            width as int,
            height as int,
            MEDIUM_WIDTH as int,
        ),
        derived_sizes(width, height).small_height == scaled_height(
            width as int,
            height as int,
            SMALL_WIDTH as int,
        ),
        derived_sizes(width, height).medium_height * width <= MEDIUM_WIDTH * height,
        100 * (MEDIUM_WIDTH * height - derived_sizes(width, height).medium_height * width) < width
            * (height + 100),
        derived_sizes(width, height).small_height * width <= SMALL_WIDTH * height,
        100 * (SMALL_WIDTH * height - derived_sizes(width, height).small_height * width) < width
            * (height + 100),
{
    lemma_scaled_height_deviation(width as int, height as int, MEDIUM_WIDTH as int);
    lemma_scaled_height_deviation(width as int, height as int, SMALL_WIDTH as int);
    lemma_scaled_height_fits(width as int, height as int, MEDIUM_WIDTH as int);
    lemma_scaled_height_fits(width as int, height as int, SMALL_WIDTH as int);
}

/// A scaled height is never negative and never more than the crop's height.
pub proof fn lemma_scaled_height_fits(width: int, height: int, target: int)
    requires
        0 < target < width,
        0 <= height,
    ensures
        0 <= scaled_height(width, height, target) <= height,
{
    let percent = (target * 100) / width;
    assert(0 <= percent < 100) by (nonlinear_arith)
        requires
            percent == (target * 100) / width,
            0 < target < width,
    ;
    assert(0 <= (height * percent) / 100 <= height) by (nonlinear_arith)
        requires
            0 <= percent < 100,
            0 <= height,
    ;
}

/// Half of a side as the halved copy has it: the side is cut down to whole
/// hundreds of pixels first, and half of that is taken.
pub open spec fn halved_side(side: u32) -> u32 {
    (side / 100 * 50) as u32
}

/// Computes `halved_side`.
pub fn halve(side: u32) -> (half: u32)
    ensures
        half == halved_side(side),
        half <= side,
{
    side / 100 * 50
}

} // verus!
