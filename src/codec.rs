use vstd::prelude::*;

use crate::wasm_image::{EncodeTarget, PngCompression, WasmImageFormat};
use image::codecs::avif::AvifEncoder;
use image::codecs::bmp::BmpEncoder;
use image::codecs::gif::GifEncoder;
use image::codecs::ico::IcoEncoder;
use image::codecs::jpeg::JpegEncoder;
use image::codecs::png::{CompressionType, FilterType, PngEncoder};
use image::codecs::webp::WebPEncoder;
use image::{ImageError, ImageFormat};

verus! {

/// A format tag of the `image` crate.
#[verifier::external_type_specification]
#[verifier::external_body]
pub struct ExImageFormat(ImageFormat);

/// An error of the `image` crate.
#[verifier::external_type_specification]
#[verifier::external_body]
pub struct ExImageError(ImageError);

/// Whether the decoder of `format` accepts `bytes`.
pub uninterp spec fn decodes(bytes: Seq<u8>, format: WasmImageFormat) -> bool;

/// The bytes that the encoder of `target` writes for the image that the
/// decoder of `format` makes of `bytes`, up to its end or to its first error.
pub uninterp spec fn encoded(bytes: Seq<u8>, format: WasmImageFormat, target: EncodeTarget) -> Seq<
    u8,
>;

/// The output of one conversion: the bytes written, and the encoder's result.
pub type Written = (Vec<u8>, Result<(), ImageError>);

/// The `image` crate's tag for `format`, variant for variant.
#[verifier::external_body]
fn image_format_of(format: WasmImageFormat) -> ImageFormat {
    match format {
        WasmImageFormat::Png => ImageFormat::Png,
        WasmImageFormat::Jpeg => ImageFormat::Jpeg,
        WasmImageFormat::Gif => ImageFormat::Gif,
        WasmImageFormat::WebP => ImageFormat::WebP,
        WasmImageFormat::Tiff => ImageFormat::Tiff,
        WasmImageFormat::Bmp => ImageFormat::Bmp,
        WasmImageFormat::Ico => ImageFormat::Ico,
        WasmImageFormat::Avif => ImageFormat::Avif,
    }
}

/// Relies on `image::load_from_memory_with_format`, whose success and image
/// depend on the bytes and the format alone (its limits are the constant
/// defaults), then on `PngEncoder::new_with_quality` with rows unfiltered and
/// `DynamicImage::write_with_encoder`, which are deterministic.
#[verifier::external_body]
pub(crate) fn convert_png(bytes: &[u8], format: WasmImageFormat, compression: PngCompression) -> (r:
    Result<Written, ImageError>)
    ensures
        r is Ok <==> decodes(bytes@, format),
        r is Ok ==> r->Ok_0.0@ == encoded(bytes@, format, EncodeTarget::Png(compression)),
{
    let img = image::load_from_memory_with_format(bytes, image_format_of(format))?;
    let level = match compression {
        PngCompression::Fast => CompressionType::Fast,
        PngCompression::Best => CompressionType::Best,
    };
    let mut out: Vec<u8> = Vec::new();
    let res = img.write_with_encoder(PngEncoder::new_with_quality(&mut out, level, FilterType::NoFilter));
    Ok((out, res))
}

/// Relies on `image::load_from_memory_with_format` as `convert_png` does, then
/// on `JpegEncoder::new_with_quality`, which clamps `quality` to 1..=100, and
/// `DynamicImage::write_with_encoder`.
#[verifier::external_body]
pub(crate) fn convert_jpeg(bytes: &[u8], format: WasmImageFormat, quality: u8) -> (r: Result<
    Written,
    ImageError,
>)
    ensures
        r is Ok <==> decodes(bytes@, format),
        r is Ok ==> r->Ok_0.0@ == encoded(bytes@, format, EncodeTarget::Jpeg(quality)),
{
    let img = image::load_from_memory_with_format(bytes, image_format_of(format))?;
    let mut out: Vec<u8> = Vec::new();
    let res = img.write_with_encoder(JpegEncoder::new_with_quality(&mut out, quality));
    Ok((out, res))
}

/// Relies on `image::load_from_memory_with_format` as `convert_png` does, then
/// on `WebPEncoder::new_lossless` and `DynamicImage::write_with_encoder`.
#[verifier::external_body]
pub(crate) fn convert_webp_lossless(bytes: &[u8], format: WasmImageFormat) -> (r: Result<
    Written,
    ImageError,
>)
    ensures
        r is Ok <==> decodes(bytes@, format),
        r is Ok ==> r->Ok_0.0@ == encoded(bytes@, format, EncodeTarget::WebPLossless),
{
    let img = image::load_from_memory_with_format(bytes, image_format_of(format))?;
    let mut out: Vec<u8> = Vec::new();
    let res = img.write_with_encoder(WebPEncoder::new_lossless(&mut out));
    Ok((out, res))
}

/// Relies on `image::load_from_memory_with_format` as `convert_png` does, then
/// on `AvifEncoder::new_with_speed_quality`, which caps speed at 10 and quality
/// at 100 and hands them to `ravif`, which asserts that neither is 0, and on
/// `DynamicImage::write_with_encoder`. This build runs `ravif` without threads.
#[verifier::external_body]
pub(crate) fn convert_avif(bytes: &[u8], format: WasmImageFormat, speed: u8, quality: u8) -> (r:
    Result<Written, ImageError>)
    requires
        1 <= speed,
        1 <= quality,
    ensures
        r is Ok <==> decodes(bytes@, format),
        r is Ok ==> r->Ok_0.0@ == encoded(bytes@, format, EncodeTarget::Avif { speed, quality }),
{
    let img = image::load_from_memory_with_format(bytes, image_format_of(format))?;
    let mut out: Vec<u8> = Vec::new();
    let res = img.write_with_encoder(AvifEncoder::new_with_speed_quality(&mut out, speed, quality));
    Ok((out, res))
}

/// Relies on `image::load_from_memory_with_format` as `convert_png` does, then
/// on `IcoEncoder::new` and `DynamicImage::write_with_encoder`.
#[verifier::external_body]
pub(crate) fn convert_ico(bytes: &[u8], format: WasmImageFormat) -> (r: Result<Written, ImageError>)
    ensures
        r is Ok <==> decodes(bytes@, format),
        r is Ok ==> r->Ok_0.0@ == encoded(bytes@, format, EncodeTarget::Ico),
{
    let img = image::load_from_memory_with_format(bytes, image_format_of(format))?;
    let mut out: Vec<u8> = Vec::new();
    let res = img.write_with_encoder(IcoEncoder::new(&mut out));
    Ok((out, res))
}

/// Relies on `image::load_from_memory_with_format` as `convert_png` does, then
/// on `BmpEncoder::new` and `DynamicImage::write_with_encoder`.
#[verifier::external_body]
pub(crate) fn convert_bmp(bytes: &[u8], format: WasmImageFormat) -> (r: Result<Written, ImageError>)
    ensures
        r is Ok <==> decodes(bytes@, format),
        r is Ok ==> r->Ok_0.0@ == encoded(bytes@, format, EncodeTarget::Bmp),
{
    let img = image::load_from_memory_with_format(bytes, image_format_of(format))?;
    let mut out: Vec<u8> = Vec::new();
    let res = img.write_with_encoder(BmpEncoder::new(&mut out));
    Ok((out, res))
}

/// Relies on `image::load_from_memory_with_format` as `convert_png` does, which
/// keeps the first frame of an animation, then on `GifEncoder::new_with_speed`,
/// which panics outside 1..=30, and `DynamicImage::write_with_encoder`, which
/// writes the image as one frame.
#[verifier::external_body]
pub(crate) fn convert_gif(bytes: &[u8], format: WasmImageFormat, speed: i32) -> (r: Result<
    Written,
    ImageError,
>)
    requires
        1 <= speed <= 30,
    ensures
        r is Ok <==> decodes(bytes@, format),
        r is Ok ==> r->Ok_0.0@ == encoded(bytes@, format, EncodeTarget::Gif(speed)),
{
    let img = image::load_from_memory_with_format(bytes, image_format_of(format))?;
    let mut out: Vec<u8> = Vec::new();
    let res = img.write_with_encoder(GifEncoder::new_with_speed(&mut out, speed));
    Ok((out, res))
}

} // verus!
