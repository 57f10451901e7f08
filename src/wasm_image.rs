use vstd::prelude::*;

use crate::codec::{
    convert_avif, convert_bmp, convert_gif, convert_ico, convert_jpeg, convert_png,
    convert_webp_lossless, decodes, encoded, Written,
};
use image::ImageError;

verus! {

/// Message of a buffer too short to hold a signature.
pub const BINARY_DATA_CORRUPTED: &'static str = "binary data corrupted";

/// Message of a buffer whose signature matches no known format.
pub const UNKNOWN_FORMAT: &'static str = "unable to determine image format";

/// The container formats that the sniffer recognises.
#[derive(Clone, Copy, Debug, PartialEq, Eq, Structural)]
pub enum WasmImageFormat {
    Png,
    Jpeg,
    Gif,
    WebP,
    Tiff,
    Bmp,
    Ico,
    Avif,
}

/// Why a buffer could not be classified.
#[derive(Clone, Copy, Debug, PartialEq, Eq)]
pub enum WasmImageError {
    UnknownFormatError(&'static str),
    BinaryDataError(&'static str),
}

impl WasmImageError {
    /// The message carried by the error, as the host displays it.
    pub open spec fn message_spec(&self) -> Seq<char> {
        match *self {
            WasmImageError::UnknownFormatError(m) => m@,
            WasmImageError::BinaryDataError(m) => m@,
        }
    }

    pub fn message(&self) -> (r: &'static str)
        ensures
            r@ == self.message_spec(),
    {
        match *self {
            WasmImageError::UnknownFormatError(m) => m,
            WasmImageError::BinaryDataError(m) => m,
        }
    }
}

/// ISO-BMFF `ftyp` box of subtype `avif`, found at offset 4.
pub open spec fn avif_brand() -> Seq<u8> {
    seq![0x66u8, 0x74u8, 0x79u8, 0x70u8, 0x61u8, 0x76u8, 0x69u8, 0x66u8]
}

/// ISO-BMFF `ftyp` box of subtype `mif1`, found at offset 4.
pub open spec fn mif1_brand() -> Seq<u8> {
    seq![0x66u8, 0x74u8, 0x79u8, 0x70u8, 0x6du8, 0x69u8, 0x66u8, 0x31u8]
}

pub open spec fn png_signature() -> Seq<u8> {
    seq![0x89u8, 0x50u8, 0x4eu8, 0x47u8]
}

pub open spec fn jpeg_signature() -> Seq<u8> {
    seq![0xffu8, 0xd8u8, 0xffu8, 0xe0u8]
}

pub open spec fn gif_signature() -> Seq<u8> {
    seq![0x47u8, 0x49u8, 0x46u8, 0x38u8]
}

/// The RIFF container header, taken to mean WebP.
pub open spec fn riff_signature() -> Seq<u8> {
    seq![0x52u8, 0x49u8, 0x46u8, 0x46u8]
}

/// Big-endian TIFF header.
pub open spec fn tiff_be_signature() -> Seq<u8> {
    seq![0x4eu8, 0x4eu8, 0x00u8, 0xa2u8]
}

/// Little-endian TIFF header.
pub open spec fn tiff_le_signature() -> Seq<u8> {
    seq![0x49u8, 0x49u8, 0x2au8, 0x00u8]
}

pub open spec fn bmp_signature() -> Seq<u8> {
    seq![0x42u8, 0x4du8]
}

pub open spec fn ico_signature() -> Seq<u8> {
    seq![0x00u8, 0x00u8, 0x01u8, 0x00u8]
}

/// Whether `b` holds `sig` from position `at` on.
pub open spec fn holds_at(b: Seq<u8>, at: int, sig: Seq<u8>) -> bool {
    0 <= at && at + sig.len() <= b.len() && b.subrange(at, at + sig.len()) == sig
}

/// Whether bytes 4 to 12 of `b` carry one of the AVIF brands.
pub open spec fn has_avif_brand(b: Seq<u8>) -> bool {
    holds_at(b, 4, avif_brand()) || holds_at(b, 4, mif1_brand())
}

/// The classification of a buffer: too short, AVIF by its brand at offset 4,
/// then the first matching entry of the prefix table, else unknown.
pub open spec fn detect(b: Seq<u8>) -> Result<WasmImageFormat, WasmImageError> {
    if b.len() < 12 {
        Err(WasmImageError::BinaryDataError(BINARY_DATA_CORRUPTED))
    } else if has_avif_brand(b) {
        Ok(WasmImageFormat::Avif)
    } else if holds_at(b, 0, png_signature()) {
        Ok(WasmImageFormat::Png)
    } else if holds_at(b, 0, jpeg_signature()) {
        Ok(WasmImageFormat::Jpeg)
    } else if holds_at(b, 0, gif_signature()) {
        Ok(WasmImageFormat::Gif)
    } else if holds_at(b, 0, riff_signature()) {
        Ok(WasmImageFormat::WebP)
    } else if holds_at(b, 0, tiff_be_signature()) || holds_at(b, 0, tiff_le_signature()) {
        Ok(WasmImageFormat::Tiff)
    } else if holds_at(b, 0, bmp_signature()) {
        Ok(WasmImageFormat::Bmp)
    } else if holds_at(b, 0, ico_signature()) {
        Ok(WasmImageFormat::Ico)
    } else {
        Err(WasmImageError::UnknownFormatError(UNKNOWN_FORMAT))
    }
}

/// A buffer of fewer than 12 bytes is never classified: it is reported as corrupted.
pub proof fn lemma_short_buffer_is_corrupted(b: Seq<u8>)
    requires
        b.len() < 12,
    ensures
        detect(b) == Err::<WasmImageFormat, WasmImageError>(
            WasmImageError::BinaryDataError(BINARY_DATA_CORRUPTED),
        ),
{
}

/// Bytes 4 to 12 that spell an AVIF brand make the buffer AVIF, whatever its
/// first four bytes are.
pub proof fn lemma_avif_brand_wins(b: Seq<u8>)
    requires
        b.len() >= 12,
        b.subrange(4, 12) == avif_brand() || b.subrange(4, 12) == mif1_brand(),
    ensures
        detect(b) == Ok::<WasmImageFormat, WasmImageError>(WasmImageFormat::Avif),
{
}

/// A buffer of at least 12 bytes that starts with the PNG signature, and does
/// not carry an AVIF brand at offset 4, is PNG.
pub proof fn lemma_png_prefix(b: Seq<u8>)
    requires
        b.len() >= 12,
        b.subrange(0, 4) == png_signature(),
        !has_avif_brand(b),
    ensures
        detect(b) == Ok::<WasmImageFormat, WasmImageError>(WasmImageFormat::Png),
{
}

/// A buffer of at least 12 bytes that starts with `42 4D`, and does not carry
/// an AVIF brand at offset 4, is BMP.
pub proof fn lemma_bmp_prefix(b: Seq<u8>)
    requires
        b.len() >= 12,
        b.subrange(0, 2) == bmp_signature(),
        !has_avif_brand(b),
    ensures
        detect(b) == Ok::<WasmImageFormat, WasmImageError>(WasmImageFormat::Bmp),
{
    assert(b[0] == 0x42u8 && b[1] == 0x4du8) by {
        assert(b.subrange(0, 2)[0] == b[0]);
        assert(b.subrange(0, 2)[1] == b[1]);
    }
    assert(!holds_at(b, 0, png_signature())) by {
        if holds_at(b, 0, png_signature()) {
            assert(b.subrange(0, 4)[0] == b[0]);
        }
    }
    assert(!holds_at(b, 0, jpeg_signature())) by {
        if holds_at(b, 0, jpeg_signature()) {
            assert(b.subrange(0, 4)[0] == b[0]);
        }
    }
    assert(!holds_at(b, 0, gif_signature())) by {
        if holds_at(b, 0, gif_signature()) {
            assert(b.subrange(0, 4)[0] == b[0]);
        }
    }
    assert(!holds_at(b, 0, riff_signature())) by {
        if holds_at(b, 0, riff_signature()) {
            assert(b.subrange(0, 4)[0] == b[0]);
        }
    }
    assert(!holds_at(b, 0, tiff_be_signature())) by {
        if holds_at(b, 0, tiff_be_signature()) {
            assert(b.subrange(0, 4)[0] == b[0]);
        }
    }
    assert(!holds_at(b, 0, tiff_le_signature())) by {
        if holds_at(b, 0, tiff_le_signature()) {
            assert(b.subrange(0, 4)[0] == b[0]);
        }
    }
}

fn matches_at(b: &[u8], at: usize, sig: &[u8]) -> (r: bool)
    requires
        at + sig@.len() <= b@.len(),
    ensures
        r == holds_at(b@, at as int, sig@),
{
    let n: usize = b.len();
    let mut i: usize = 0;
    while i < sig.len()
        invariant
            i <= sig@.len(),
            n == b@.len(),
            at + sig@.len() <= b@.len(),
            forall|k: int| 0 <= k < i ==> b@[at + k] == sig@[k],
        decreases sig@.len() - i,
    {
        if b[at + i] != sig[i] {
            assert(b@.subrange(at as int, at + sig@.len())[i as int] != sig@[i as int]);
            return false;
        }
        i = i + 1;
    }
    assert(b@.subrange(at as int, at + sig@.len()) =~= sig@);
    true
}

/// Classifies `image_bin` by its leading bytes.
pub fn get_image_format(image_bin: &[u8]) -> (r: Result<WasmImageFormat, WasmImageError>)
    ensures
        r == detect(image_bin@),
{
    if image_bin.len() < 12 {
        return Err(WasmImageError::BinaryDataError(BINARY_DATA_CORRUPTED));
    }
    let avif: [u8; 8] = [0x66, 0x74, 0x79, 0x70, 0x61, 0x76, 0x69, 0x66];
    let mif1: [u8; 8] = [0x66, 0x74, 0x79, 0x70, 0x6d, 0x69, 0x66, 0x31];
    assert(avif@ =~= avif_brand());
    assert(mif1@ =~= mif1_brand());
    if matches_at(image_bin, 4, &avif) || matches_at(image_bin, 4, &mif1) {
        return Ok(WasmImageFormat::Avif);
    }
    let png: [u8; 4] = [0x89, 0x50, 0x4e, 0x47];
    let jpeg: [u8; 4] = [0xff, 0xd8, 0xff, 0xe0];
    let gif: [u8; 4] = [0x47, 0x49, 0x46, 0x38];
    let riff: [u8; 4] = [0x52, 0x49, 0x46, 0x46];
    let tiff_be: [u8; 4] = [0x4e, 0x4e, 0x00, 0xa2];
    let tiff_le: [u8; 4] = [0x49, 0x49, 0x2a, 0x00];
    let bmp: [u8; 2] = [0x42, 0x4d];
    let ico: [u8; 4] = [0x00, 0x00, 0x01, 0x00];
    assert(png@ =~= png_signature());
    assert(jpeg@ =~= jpeg_signature());
    assert(gif@ =~= gif_signature());
    assert(riff@ =~= riff_signature());
    assert(tiff_be@ =~= tiff_be_signature());
    assert(tiff_le@ =~= tiff_le_signature());
    assert(bmp@ =~= bmp_signature());
    assert(ico@ =~= ico_signature());
    if matches_at(image_bin, 0, &png) {
        Ok(WasmImageFormat::Png)
    } else if matches_at(image_bin, 0, &jpeg) {
        Ok(WasmImageFormat::Jpeg)
    } else if matches_at(image_bin, 0, &gif) {
        Ok(WasmImageFormat::Gif)
    } else if matches_at(image_bin, 0, &riff) {
        Ok(WasmImageFormat::WebP)
    } else if matches_at(image_bin, 0, &tiff_be) || matches_at(image_bin, 0, &tiff_le) {
        Ok(WasmImageFormat::Tiff)
    } else if matches_at(image_bin, 0, &bmp) {
        Ok(WasmImageFormat::Bmp)
    } else if matches_at(image_bin, 0, &ico) {
        Ok(WasmImageFormat::Ico)
    } else {
        Err(WasmImageError::UnknownFormatError(UNKNOWN_FORMAT))
    }
}

/// The compression strategy of the PNG encoder; rows are never filtered.
#[derive(Clone, Copy, Debug, PartialEq, Eq, Structural)]
pub enum PngCompression {
    Fast,
    Best,
}

/// An encoder and its parameters.
#[derive(Clone, Copy, Debug, PartialEq, Eq, Structural)]
pub enum EncodeTarget {
    Png(PngCompression),
    /// JPEG of the given quality, 1 (worst) to 100 (best); other values are
    /// clamped into that range.
    Jpeg(u8),
    WebPLossless,
    /// AVIF of the given speed, 1 (slowest) to 10, and quality, 1 (worst) to
    /// 100; neither may be 0, and larger values are capped.
    Avif { speed: u8, quality: u8 },
    Ico,
    Bmp,
    /// A single-frame GIF of the given speed, 1 (best quality) to 30.
    Gif(i32),
}

impl EncodeTarget {
    /// Whether the encoder accepts the parameters.
    pub open spec fn valid(&self) -> bool {
        match *self {
            EncodeTarget::Avif { speed, quality } => 1 <= speed && 1 <= quality,
            EncodeTarget::Gif(speed) => 1 <= speed <= 30,
            _ => true,
        }
    }
}

/// Why a conversion failed.
#[derive(Debug)]
pub enum ConversionError {
    /// The buffer could not be classified.
    DetectionFailure(WasmImageError),
    /// The decoder of the detected format rejected the buffer.
    DecodeFailure(ImageError),
}

/// What a conversion of `bytes` for `target` returns: the sniffer's error
/// unchanged, a decode failure exactly when the detected format's decoder
/// rejects the bytes, and otherwise the bytes that the encoder of `target`
/// wrote for the decoded image, kept even where the encoder failed.
pub open spec fn conversion_outcome(
    bytes: Seq<u8>,
    target: EncodeTarget,
    r: Result<Vec<u8>, ConversionError>,
) -> bool {
    match detect(bytes) {
        Err(e) => r == Err::<Vec<u8>, ConversionError>(ConversionError::DetectionFailure(e)),
        Ok(format) => if decodes(bytes, format) {
            r is Ok && r->Ok_0@ == encoded(bytes, format, target)
        } else {
            r is Err && r->Err_0 is DecodeFailure
        },
    }
}

/// A buffer whose signature is recognised but whose body the decoder of that
/// format rejects fails to convert with a decode failure, not a detection
/// failure and not a success.
pub proof fn lemma_rejected_body_is_decode_failure(
    bytes: Seq<u8>,
    target: EncodeTarget,
    r: Result<Vec<u8>, ConversionError>,
)
    requires
        detect(bytes) is Ok,
        !decodes(bytes, detect(bytes)->Ok_0),
        conversion_outcome(bytes, target, r),
    ensures
        r is Err,
        r->Err_0 is DecodeFailure,
{
}

/// A buffer of at least 12 bytes whose signature is not recognised fails to
/// convert with the unknown-format detection failure.
pub proof fn lemma_unrecognised_is_unknown_format(
    bytes: Seq<u8>,
    target: EncodeTarget,
    r: Result<Vec<u8>, ConversionError>,
)
    requires
        bytes.len() >= 12,
        !(detect(bytes) is Ok),
        conversion_outcome(bytes, target, r),
    ensures
        r == Err::<Vec<u8>, ConversionError>(
            ConversionError::DetectionFailure(WasmImageError::UnknownFormatError(UNKNOWN_FORMAT)),
        ),
{
}

/// Two conversions of the same bytes for the same target agree: both fail in
/// the same way, or both return the same bytes.
pub proof fn lemma_conversion_is_deterministic(
    bytes: Seq<u8>,
    target: EncodeTarget,
    r1: Result<Vec<u8>, ConversionError>,
    r2: Result<Vec<u8>, ConversionError>,
)
    requires
        conversion_outcome(bytes, target, r1),
        conversion_outcome(bytes, target, r2),
    ensures
        r1 is Ok <==> r2 is Ok,
        r1 is Ok ==> r1->Ok_0@ == r2->Ok_0@,
        r1 is Err ==> (r1->Err_0 is DecodeFailure <==> r2->Err_0 is DecodeFailure),
        r1 is Err && !(r1->Err_0 is DecodeFailure) ==> r1 == r2,
{
}

/// The output of an encoder: what it wrote, whether or not it reported an
/// error on the way.
pub fn best_effort_output(written: Vec<u8>, outcome: Result<(), ImageError>) -> (r: Vec<u8>)
    ensures
        r@ == written@,
{
    written
}

/// Decodes `image` in the format that its signature gives and writes it
/// through the encoder of `target`.
pub fn image_to(image: Vec<u8>, target: EncodeTarget) -> (r: Result<Vec<u8>, ConversionError>)
    requires
        target.valid(),
    ensures
        conversion_outcome(image@, target, r),
{
    let format = match get_image_format(image.as_slice()) {
        Ok(format) => format,
        Err(e) => return Err(ConversionError::DetectionFailure(e)),
    };
    let bytes = image.as_slice();
    let converted: Result<Written, ImageError> = match target {
        EncodeTarget::Png(compression) => convert_png(bytes, format, compression),
        EncodeTarget::Jpeg(quality) => convert_jpeg(bytes, format, quality),
        EncodeTarget::WebPLossless => convert_webp_lossless(bytes, format),
        EncodeTarget::Avif { speed, quality } => convert_avif(bytes, format, speed, quality),
        EncodeTarget::Ico => convert_ico(bytes, format),
        EncodeTarget::Bmp => convert_bmp(bytes, format),
        EncodeTarget::Gif(speed) => convert_gif(bytes, format, speed),
    };
    match converted {
        Ok((written, outcome)) => Ok(best_effort_output(written, outcome)),
        Err(e) => Err(ConversionError::DecodeFailure(e)),
    }
}

} // verus!
