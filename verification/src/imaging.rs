use crate::raster::Raster;
use vstd::prelude::*;

verus! {

/// The error type of the `image` crate.
#[verifier::external_type_specification]
#[verifier::external_body]
pub struct ExImageError(image::ImageError);

/// What `image::load_from_memory_with_format` makes of a file's bytes read
/// as PNG, converted to eight-bit RGBA: width, height and pixels, or `None`
/// where it reports an error.
pub uninterp spec fn png_image(bytes: Seq<u8>) -> Option<(u32, u32, Seq<u8>)>;

/// The pixels that `image::imageops::resize` with the nearest-neighbour
/// filter makes of an RGBA image of `width` by `height` for the new size
/// `new_width` by `new_height`.
pub uninterp spec fn resized_pixels(
    pixels: Seq<u8>,
    width: u32,
    height: u32,
    new_width: u32,
    new_height: u32,
) -> Seq<u8>;

/// The PNG file that the `image` crate writes for an RGBA image, or `None`
/// where its encoder reports an error.
pub uninterp spec fn png_bytes(pixels: Seq<u8>, width: u32, height: u32) -> Option<Seq<u8>>;

/// The JPEG file that the `image` crate writes for an RGBA image at its
/// default quality, or `None` where its encoder reports an error.
pub uninterp spec fn jpeg_bytes(pixels: Seq<u8>, width: u32, height: u32) -> Option<Seq<u8>>;

/// Whether an image of `width` by `height` may be handed to the resampler:
/// it has pixels, and the resampler's working copy, sixteen bytes to a
/// pixel, can be allocated.
pub open spec fn can_resize(width: u32, height: u32) -> bool {
    &&& 0 < width
    &&& 0 < height
    &&& 16 * width * height <= isize::MAX
}

/// Calls `image::load_from_memory_with_format` with `ImageFormat::Png` and
/// converts the image to eight-bit RGBA with `DynamicImage::into_rgba8`.
/// Trusted: the result is a function of the bytes alone, named `png_image`.
/// Nothing is claimed of which bytes decode, nor of the size of what comes
/// out.
#[verifier::external_body]
pub(crate) fn decode_png(bytes: &[u8]) -> (out: Result<Raster, image::ImageError>)
    ensures
        match out {
            Ok(raster) => png_image(bytes@) == Some((raster.width, raster.height, raster.pixels@)),
            Err(_) => png_image(bytes@) is None,
        },
{
    let format = image::ImageFormat::Png;
    let image = image::load_from_memory_with_format(bytes, format)?.into_rgba8();
    let (width, height) = image.dimensions();
    Ok(Raster { width, height, pixels: image.into_raw() })
}

/// Calls `image::load_from_memory_with_format` with `ImageFormat::Jpeg` and
/// converts the image to eight-bit RGBA with `DynamicImage::into_rgba8`.
/// Nothing is claimed of what comes out: the decoder chooses its arithmetic
/// by the processor it runs on, so one file may give pixels that differ
/// from one machine to the next.
#[verifier::external_body]
pub(crate) fn decode_jpeg(bytes: &[u8]) -> (out: Result<Raster, image::ImageError>) {
    let format = image::ImageFormat::Jpeg;
    let image = image::load_from_memory_with_format(bytes, format)?.into_rgba8();
    let (width, height) = image.dimensions();
    Ok(Raster { width, height, pixels: image.into_raw() })
}

/// Calls `image::imageops::resize` with `FilterType::Nearest`. Trusted: the
/// result has the size asked for, four bytes to a pixel, and its pixels are
/// a function of the arguments alone, named `resized_pixels`. The call is
/// made only to make an image smaller, and only within `can_resize`, where
/// the resampler's buffers can be allocated.
#[verifier::external_body]
pub(crate) fn resize_nearest(source: &Raster, new_width: u32, new_height: u32) -> (out: Raster)
    requires
        source.wf(),
        can_resize(source.width, source.height),
        new_width <= source.width,
        new_height <= source.height,
    ensures
        out.width == new_width,
        out.height == new_height,
        out.wf(),
        out.pixels@ == resized_pixels(
            source.pixels@,
            source.width,
            source.height,
            new_width,
            new_height,
        ),
{
    let pixels = source.pixels.clone();
    let image = image::RgbaImage::from_raw(source.width, source.height, pixels).unwrap();
    let filter = image::imageops::FilterType::Nearest;
    let resized = image::imageops::resize(&image, new_width, new_height, filter);
    Raster { width: resized.width(), height: resized.height(), pixels: resized.into_raw() }
}

/// Calls `ImageBuffer::write_to` with `ImageFormat::Png` on a buffer in
/// memory. Trusted: the bytes written, or the failure, are a function of
/// the image alone, named `png_bytes`.
#[verifier::external_body]
pub(crate) fn encode_png(source: &Raster) -> (out: Result<Vec<u8>, image::ImageError>)
    requires
        source.wf(),
    ensures
        match out {
            Ok(bytes) => png_bytes(source.pixels@, source.width, source.height) == Some(bytes@),
            Err(_) => png_bytes(source.pixels@, source.width, source.height) is None,
        },
{
    let pixels = source.pixels.clone();
    let image = image::RgbaImage::from_raw(source.width, source.height, pixels).unwrap();
    let mut sink = std::io::Cursor::new(Vec::new());
    image.write_to(&mut sink, image::ImageFormat::Png)?;
    Ok(sink.into_inner())
}

/// Calls `ImageBuffer::write_to` with `ImageFormat::Jpeg` on a buffer in
/// memory. Trusted: the bytes written, or the failure, are a function of
/// the image alone, named `jpeg_bytes`.
#[verifier::external_body]
pub(crate) fn encode_jpeg(source: &Raster) -> (out: Result<Vec<u8>, image::ImageError>)
    requires
        source.wf(),
    ensures
        match out {
            Ok(bytes) => jpeg_bytes(source.pixels@, source.width, source.height) == Some(bytes@),
            Err(_) => jpeg_bytes(source.pixels@, source.width, source.height) is None,
        },
{
    let pixels = source.pixels.clone();
    let image = image::RgbaImage::from_raw(source.width, source.height, pixels).unwrap();
    let mut sink = std::io::Cursor::new(Vec::new());
    image.write_to(&mut sink, image::ImageFormat::Jpeg)?;
    Ok(sink.into_inner())
}

/// Writes an `image::ImageError` out with its `Display` impl. Nothing is
/// claimed of the text.
#[verifier::external_body]
pub(crate) fn image_error_text(error: &image::ImageError) -> (text: String) {
    error.to_string()
}

} // verus!
