use vstd::prelude::*;

pub mod codec;
pub mod wasm_image;

pub use wasm_image::{
    get_image_format, image_to, ConversionError, EncodeTarget, PngCompression, WasmImageError,
    WasmImageFormat,
};

use wasm_image::conversion_outcome;

verus! {

fn copy_bytes(b: &[u8]) -> (r: Vec<u8>)
    ensures
        r@ == b@,
{
    let mut r: Vec<u8> = Vec::with_capacity(b.len());
    let mut i: usize = 0;
    while i < b.len()
        invariant
            i <= b@.len(),
            r@ == b@.subrange(0, i as int),
        decreases b@.len() - i,
    {
        r.push(b[i]);
        i = i + 1;
    }
    assert(r@ =~= b@);
    r
}

/// A quick PNG rendering of `image`: fast compression, no row filter.
pub fn get_preview(image: &[u8]) -> (r: Result<Vec<u8>, ConversionError>)
    ensures
        conversion_outcome(image@, EncodeTarget::Png(PngCompression::Fast), r),
{
    image_to(copy_bytes(image), EncodeTarget::Png(PngCompression::Fast))
}

/// `image` as PNG with the best compression and no row filter.
pub fn image_to_png(image: Vec<u8>) -> (r: Result<Vec<u8>, ConversionError>)
    ensures
        conversion_outcome(image@, EncodeTarget::Png(PngCompression::Best), r),
{
    image_to(image, EncodeTarget::Png(PngCompression::Best))
}

/// `image` as JPEG of quality 95.
pub fn image_to_jpeg(image: Vec<u8>) -> (r: Result<Vec<u8>, ConversionError>)
    ensures
        conversion_outcome(image@, EncodeTarget::Jpeg(95), r),
{
    image_to(image, EncodeTarget::Jpeg(95))
}

/// `image` as lossless WebP.
pub fn image_to_webp(image: Vec<u8>) -> (r: Result<Vec<u8>, ConversionError>)
    ensures
        conversion_outcome(image@, EncodeTarget::WebPLossless, r),
{
    image_to(image, EncodeTarget::WebPLossless)
}

/// `image` as AVIF of speed 10 and quality 95.
pub fn image_to_avif(image: Vec<u8>) -> (r: Result<Vec<u8>, ConversionError>)
    ensures
        conversion_outcome(image@, EncodeTarget::Avif { speed: 10, quality: 95 }, r),
{
    image_to(image, EncodeTarget::Avif { speed: 10, quality: 95 })
}

/// `image` as ICO.
pub fn image_to_ico(image: Vec<u8>) -> (r: Result<Vec<u8>, ConversionError>)
    ensures
        conversion_outcome(image@, EncodeTarget::Ico, r),
{
    image_to(image, EncodeTarget::Ico)
}

/// `image` as BMP.
pub fn image_to_bmp(image: Vec<u8>) -> (r: Result<Vec<u8>, ConversionError>)
    ensures
        conversion_outcome(image@, EncodeTarget::Bmp, r),
{
    image_to(image, EncodeTarget::Bmp)
}

/// The first frame of `image` as a single-frame GIF of speed 1.
pub fn image_to_gif(image: Vec<u8>) -> (r: Result<Vec<u8>, ConversionError>)
    ensures
        conversion_outcome(image@, EncodeTarget::Gif(1), r),
{
    image_to(image, EncodeTarget::Gif(1))
}

} // verus!
