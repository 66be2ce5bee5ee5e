use crate::error::{Error, ErrorKind};
use crate::geometry::{
    derive_sizes, derived_sizes, downscales, halve, halved_side, CropRect, DerivedSizes,
    OUTSIDE_MESSAGE,
};
use crate::imaging::{
    can_resize, decode_jpeg, decode_png, encode_jpeg, encode_png, image_error_text, jpeg_bytes,
    png_bytes, png_image, resize_nearest, resized_pixels,
};
use crate::naming::ImageKind;
use crate::raster::{cropped_pixels, Raster};
use vstd::prelude::*;

verus! {

/// The two files derived from one upload, and their sizes in pixels.
#[derive(Clone, Debug)]
pub struct Artifacts {
    pub sizes: DerivedSizes,
    pub medium: Vec<u8>,
    pub small: Vec<u8>,
}

/// Message of the error for a decoded image that holds fewer or more bytes
/// than four to a pixel.
pub const MALFORMED_MESSAGE: &'static str = "decoded image is malformed.";

/// Message of the error for a crop that is to be made smaller and is too
/// large for the resampler.
pub const TOO_LARGE_MESSAGE: &'static str = "image is too large to resize.";

/// The file that an image is written as in the given format, or `None`
/// where the encoder fails.
pub open spec fn encoded_bytes(kind: ImageKind, pixels: Seq<u8>, width: u32, height: u32) -> Option<
    Seq<u8>,
> {
    match kind {
        ImageKind::Jpeg => jpeg_bytes(pixels, width, height),
        ImageKind::Png => png_bytes(pixels, width, height),
    }
}

/// The pixels of one derived image: the crop resampled to the new size
/// where the downscale rule applies, the crop itself otherwise.
pub open spec fn tier_pixels(
    crop: Seq<u8>,
    width: u32,
    height: u32,
    new_width: u32,
    new_height: u32,
) -> Seq<u8> {
    if downscales(width as int, height as int) {
        resized_pixels(crop, width, height, new_width, new_height)
    } else {
        crop
    }
}

/// What is derived from an image of the given pixels: the sizes and the two
/// files, or `None` where one of the two cannot be encoded.
pub open spec fn rendered(pixels: Seq<u8>, image_width: u32, rect: CropRect, kind: ImageKind)
    -> Option<(DerivedSizes, Seq<u8>, Seq<u8>)> {
    let crop = cropped_pixels(pixels, image_width as int, rect);
    let sizes = derived_sizes(rect.width, rect.height);
    let medium = encoded_bytes(
        kind,
        tier_pixels(crop, rect.width, rect.height, sizes.medium_width, sizes.medium_height),
        sizes.medium_width,
        sizes.medium_height,
    );
    let small = encoded_bytes(
        kind,
        tier_pixels(crop, rect.width, rect.height, sizes.small_width, sizes.small_height),
        sizes.small_width,
        sizes.small_height,
    );
    if medium is Some && small is Some {
        Some((sizes, medium->0, small->0))
    } else {
        None
    }
}

/// What becomes of a decoded image: the derived sizes and files, or the
/// kind and, where the library words it, the message of the error.
///
/// An image that does not hold four bytes to a pixel is a decode error. A
/// crop that reaches outside the image is a geometry error: it is never
/// clamped. A crop that is to be made smaller, and for which the resampler
/// cannot allocate its working copy, is a decode error, and so is an image
/// that cannot be encoded.
pub open spec fn decoded_outcome(
    pixels: Seq<u8>,
    width: u32,
    height: u32,
    rect: CropRect,
    kind: ImageKind,
) -> Result<(DerivedSizes, Seq<u8>, Seq<u8>), (ErrorKind, Option<Seq<char>>)> {
    if pixels.len() != 4 * width * height {
        Err((ErrorKind::Decode, Some(MALFORMED_MESSAGE@)))
    } else if !rect.within(width as int, height as int) {
        Err((ErrorKind::Geometry, Some(OUTSIDE_MESSAGE@)))
    } else if downscales(rect.width as int, rect.height as int) && !can_resize(
        rect.width,
        rect.height,
    ) {
        Err((ErrorKind::Decode, Some(TOO_LARGE_MESSAGE@)))
    } else {
        match rendered(pixels, width, rect, kind) {
            Some(files) => Ok(files),
            None => Err((ErrorKind::Decode, None)),
        }
    }
}

/// Whether `out` is what `expected` says: the same sizes and files, or an
/// error of the same kind and, where one is given, the same message.
pub open spec fn is_outcome(
    out: Result<Artifacts, Error>,
    expected: Result<(DerivedSizes, Seq<u8>, Seq<u8>), (ErrorKind, Option<Seq<char>>)>,
) -> bool {
    match expected {
        Ok((sizes, medium, small)) => out matches Ok(a) && a.sizes == sizes && a.medium@ == medium
            && a.small@ == small,
        Err((kind, message)) => out matches Err(e) && e.kind == kind && (message matches Some(text)
            ==> e.message@ == text),
    }
}

/// The decode error that stands for a failure of the `image` crate. Its
/// message is the crate's own.
pub fn decode_failure(cause: &image::ImageError) -> (e: Error)
    ensures
        e.kind == ErrorKind::Decode,
{
    let text: String = image_error_text(cause);
    Error::new(ErrorKind::Decode, text.as_str())
}

/// Whether a crop of the given size may be handed to the resampler.
pub fn fits_resampler(width: u32, height: u32) -> (ok: bool)
    ensures
        ok == can_resize(width, height),
{
    if width == 0 || height == 0 {
        return false;
    }
    assert(width * height <= 0xffff_ffff * 0xffff_ffff) by (nonlinear_arith);
    let area: u64 = (width as u64) * (height as u64);
    assert(16 * width * height == 16 * area) by (nonlinear_arith)
        requires
            area == width * height,
    ;
    let most: u64 = (isize::MAX as u64) / 16;
    area <= most
}

/// Decodes staged bytes in the given format. A failure is a decode error.
/// What a PNG file decodes to is a function of its bytes. What a JPEG file
/// decodes to is the decoder's to say: it may differ from one machine to
/// the next.
pub fn decode(staged: &[u8], kind: ImageKind) -> (out: Result<Raster, Error>)
    ensures
        out matches Err(e) ==> e.kind == ErrorKind::Decode,
        kind == ImageKind::Png ==> match out {
            Ok(raster) => png_image(staged@) == Some(
                (raster.width, raster.height, raster.pixels@),
            ),
            Err(_) => png_image(staged@) is None,
        },
{
    let decoded = match kind {
        ImageKind::Jpeg => decode_jpeg(staged),
        ImageKind::Png => decode_png(staged),
    };
    match decoded {
        Ok(source) => Ok(source),
        Err(cause) => Err(decode_failure(&cause)),
    }
}

/// Writes an image as a file of the given format.
pub fn encode(source: &Raster, kind: ImageKind) -> (out: Result<Vec<u8>, Error>)
    requires
        source.wf(),
    ensures
        match out {
            Ok(bytes) => encoded_bytes(kind, source.pixels@, source.width, source.height) == Some(
                bytes@,
            ),
            Err(e) => encoded_bytes(kind, source.pixels@, source.width, source.height) is None
                && e.kind == ErrorKind::Decode,
        },
{
    let written = match kind {
        ImageKind::Jpeg => encode_jpeg(source),
        ImageKind::Png => encode_png(source),
    };
    match written {
        Ok(bytes) => Ok(bytes),
        Err(cause) => Err(decode_failure(&cause)),
    }
}

/// Crops a decoded image and derives the two files from the crop. The
/// rectangle must lie inside the image, and a crop that is to be made
/// smaller must fit the resampler.
pub fn render(source: &Raster, rect: CropRect, kind: ImageKind) -> (out: Result<Artifacts, Error>)
    requires
        source.wf(),
        rect.within(source.width as int, source.height as int),
        downscales(rect.width as int, rect.height as int) ==> can_resize(rect.width, rect.height),
    ensures
        match out {
            Ok(a) => rendered(source.pixels@, source.width, rect, kind) == Some(
                (a.sizes, a.medium@, a.small@),
            ),
            Err(e) => rendered(source.pixels@, source.width, rect, kind) is None && e.kind
                == ErrorKind::Decode,
        },
{
    let crop: Raster = source.crop(rect);
    let sizes: DerivedSizes = derive_sizes(rect.width, rect.height);
    if rect.width > crate::geometry::MEDIUM_WIDTH && rect.height
        > crate::geometry::THRESHOLD_HEIGHT {
        let medium_image: Raster = resize_nearest(&crop, sizes.medium_width, sizes.medium_height);
        let medium: Vec<u8> = match encode(&medium_image, kind) {
            Ok(bytes) => bytes,
            Err(e) => {
                return Err(e);
            },
        };
        let small_image: Raster = resize_nearest(&crop, sizes.small_width, sizes.small_height);
        let small: Vec<u8> = match encode(&small_image, kind) {
            Ok(bytes) => bytes,
            Err(e) => {
                return Err(e);
            },
        };
        Ok(Artifacts { sizes, medium, small })
    } else {
        let medium: Vec<u8> = match encode(&crop, kind) {
            Ok(bytes) => bytes,
            Err(e) => {
                return Err(e);
            },
        };
        let small: Vec<u8> = match encode(&crop, kind) {
            Ok(bytes) => bytes,
            Err(e) => {
                return Err(e);
            },
        };
        Ok(Artifacts { sizes, medium, small })
    }
}

/// Crops a decoded image to `rect` and derives the two files from the crop.
pub fn derive_decoded(source: &Raster, rect: CropRect, kind: ImageKind) -> (out: Result<
    Artifacts,
    Error,
>)
    ensures
        is_outcome(
            out,
            decoded_outcome(source.pixels@, source.width, source.height, rect, kind),
        ),
{
    if !source.is_wf() {
        return Err(Error::new(ErrorKind::Decode, MALFORMED_MESSAGE));
    }
    match rect.check(source.width, source.height) {
        Ok(()) => {},
        Err(e) => {
            return Err(e);
        },
    }
    let shrinks: bool = rect.width > crate::geometry::MEDIUM_WIDTH && rect.height
        > crate::geometry::THRESHOLD_HEIGHT;
    if shrinks && !fits_resampler(rect.width, rect.height) {
        return Err(Error::new(ErrorKind::Decode, TOO_LARGE_MESSAGE));
    }
    render(source, rect, kind)
}

/// Decodes staged bytes in the format `kind`, crops the image to `rect`
/// and derives the two files from the crop.
///
/// For a PNG file the outcome is that of what its bytes decode to, and a
/// decode error where they do not decode. For a JPEG file what the bytes
/// decode to is not known beforehand: whatever it is, the sizes of what is
/// derived are those of the resize rule, and a failure is a decode error or
/// the geometry error.
pub fn derive(staged: &[u8], rect: CropRect, kind: ImageKind) -> (out: Result<Artifacts, Error>)
    ensures
        out matches Ok(a) ==> a.sizes == derived_sizes(rect.width, rect.height),
        out matches Err(e) ==> e.kind == ErrorKind::Decode || (e.kind == ErrorKind::Geometry
            && e.message@ == OUTSIDE_MESSAGE@),
        kind == ImageKind::Png ==> match png_image(staged@) {
            Some((width, height, pixels)) => is_outcome(
                out,
                decoded_outcome(pixels, width, height, rect, kind),
            ),
            None => out matches Err(e) && e.kind == ErrorKind::Decode,
        },
{
    match decode(staged, kind) {
        Ok(source) => derive_decoded(&source, rect, kind),
        Err(e) => Err(e),
    }
}

/// The file of the halved copy of a crop: the crop resampled to half its
/// size and written in the given format, or `None` where the encoder fails.
/// A crop without pixels is written as it is.
pub open spec fn half_rendered(pixels: Seq<u8>, image_width: u32, rect: CropRect, kind: ImageKind)
    -> Option<Seq<u8>> {
    let crop = cropped_pixels(pixels, image_width as int, rect);
    if rect.width == 0 || rect.height == 0 {
        encoded_bytes(kind, crop, rect.width, rect.height)
    } else {
        encoded_bytes(
            kind,
            resized_pixels(
                crop,
                rect.width,
                rect.height,
                halved_side(rect.width),
                halved_side(rect.height),
            ),
            halved_side(rect.width),
            halved_side(rect.height),
        )
    }
}

/// What becomes of a decoded image of which a halved copy is asked: the
/// file, or the kind and, where the library words it, the message of the
/// error. The errors are those of `decoded_outcome`.
pub open spec fn half_outcome(
    pixels: Seq<u8>,
    width: u32,
    height: u32,
    rect: CropRect,
    kind: ImageKind,
) -> Result<Seq<u8>, (ErrorKind, Option<Seq<char>>)> {
    if pixels.len() != 4 * width * height {
        Err((ErrorKind::Decode, Some(MALFORMED_MESSAGE@)))
    } else if !rect.within(width as int, height as int) {
        Err((ErrorKind::Geometry, Some(OUTSIDE_MESSAGE@)))
    } else if rect.width > 0 && rect.height > 0 && !can_resize(rect.width, rect.height) {
        Err((ErrorKind::Decode, Some(TOO_LARGE_MESSAGE@)))
    } else {
        match half_rendered(pixels, width, rect, kind) {
            Some(file) => Ok(file),
            None => Err((ErrorKind::Decode, None)),
        }
    }
}

/// Whether `out` is what `expected` says: the same file, or an error of the
/// same kind and, where one is given, the same message.
pub open spec fn is_half_outcome(
    out: Result<Vec<u8>, Error>,
    expected: Result<Seq<u8>, (ErrorKind, Option<Seq<char>>)>,
) -> bool {
    match expected {
        Ok(file) => out matches Ok(bytes) && bytes@ == file,
        Err((kind, message)) => out matches Err(e) && e.kind == kind && (message matches Some(text)
            ==> e.message@ == text),
    }
}

/// Crops a decoded image to `rect` and writes the halved copy of the crop.
pub fn derive_half_decoded(source: &Raster, rect: CropRect, kind: ImageKind) -> (out: Result<
    Vec<u8>,
    Error,
>)
    ensures
        is_half_outcome(
            out,
            half_outcome(source.pixels@, source.width, source.height, rect, kind),
        ),
{
    if !source.is_wf() {
        return Err(Error::new(ErrorKind::Decode, MALFORMED_MESSAGE));
    }
    match rect.check(source.width, source.height) {
        Ok(()) => {},
        Err(e) => {
            return Err(e);
        },
    }
    let crop: Raster = source.crop(rect);
    if rect.width == 0 || rect.height == 0 {
        return encode(&crop, kind);
    }
    if !fits_resampler(rect.width, rect.height) {
        return Err(Error::new(ErrorKind::Decode, TOO_LARGE_MESSAGE));
    }
    let half: Raster = resize_nearest(&crop, halve(rect.width), halve(rect.height));
    encode(&half, kind)
}

/// Decodes staged bytes in the format `kind`, crops the image to `rect`
/// and writes the halved copy of the crop. For a PNG file the outcome is
/// that of what its bytes decode to; for a JPEG file a failure is a decode
/// error or the geometry error.
pub fn derive_half(staged: &[u8], rect: CropRect, kind: ImageKind) -> (out: Result<Vec<u8>, Error>)
    ensures
        out matches Err(e) ==> e.kind == ErrorKind::Decode || (e.kind == ErrorKind::Geometry
            && e.message@ == OUTSIDE_MESSAGE@),
        kind == ImageKind::Png ==> match png_image(staged@) {
            Some((width, height, pixels)) => is_half_outcome(
                out,
                half_outcome(pixels, width, height, rect, kind),
            ),
            None => out matches Err(e) && e.kind == ErrorKind::Decode,
        },
{
    match decode(staged, kind) {
        Ok(source) => derive_half_decoded(&source, rect, kind),
        Err(e) => Err(e),
    }
}

} // verus!
