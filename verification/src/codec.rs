//! The codec boundary: format probing, decoding, filtered resampling and
//! JPEG encoding. Each outside call stands behind a trusted wrapper whose
//! result is named by an uninterpreted spec function, so that everything
//! built on top is pinned to a deterministic function of the input bytes.

use vstd::prelude::*;
use crate::raster::{RasterImage, RasterView, BYTES_PER_PIXEL, SCALE_DEN, SCALE_ONE};
use crate::raster::{spec_scaled, scaled_dim, lemma_scaled_le_dim};
use fast_image_resize::{images::Image, PixelType, ResizeOptions, Resizer};

verus! {

/// The fixed quality level used for every trial encode.
pub const QUALITY: u8 = 80;

/// What the format probe returns on a byte buffer: `Ok(true)` when the magic
/// bytes say JPEG, `Ok(false)` for another recognised format, `Err` with a
/// diagnostic when no format can be guessed.
pub uninterp spec fn jpeg_probe(bytes: Seq<u8>) -> Result<bool, Seq<char>>;

/// What decoding a byte buffer to a packed RGB raster returns: width, height
/// and pixel bytes on success, a diagnostic on failure.
pub uninterp spec fn decoded_raster(bytes: Seq<u8>) -> Result<(u32, u32, Seq<u8>), Seq<char>>;

/// What filtered resampling of a packed RGB buffer from one size to another
/// returns.
pub uninterp spec fn resampled(
    pixels: Seq<u8>,
    width: u32,
    height: u32,
    new_width: u32,
    new_height: u32,
) -> Result<Seq<u8>, Seq<char>>;

/// What JPEG-encoding a packed RGB buffer at a given quality returns.
pub uninterp spec fn jpeg_encoding(
    pixels: Seq<u8>,
    width: u32,
    height: u32,
    quality: u8,
) -> Result<Seq<u8>, Seq<char>>;

/// Relies on `image::guess_format`: the guess reads only the magic bytes at
/// the start of the buffer, so the result is a function of the bytes alone;
/// it fails exactly when no known signature matches.
#[verifier::external_body]
pub(crate) fn probe_jpeg(bytes: &Vec<u8>) -> (r: Result<bool, String>)
    ensures
        r is Ok <==> jpeg_probe(bytes@) is Ok,
        r is Ok ==> r->Ok_0 == jpeg_probe(bytes@)->Ok_0,
        r is Err ==> r->Err_0@ == jpeg_probe(bytes@)->Err_0,
{
    match image::guess_format(bytes) {
        Ok(format) => Ok(format == image::ImageFormat::Jpeg),
        Err(e) => Err(format!("with_guessed_format: {e}")),
    }
}

/// Relies on `image::load_from_memory` and `DynamicImage::into_rgb8`:
/// decoding is a function of the bytes alone, and the RGB buffer it yields
/// holds exactly three bytes per pixel.
#[verifier::external_body]
pub(crate) fn decode_rgb(bytes: &Vec<u8>) -> (r: Result<RasterImage, String>)
    ensures
        r is Ok <==> decoded_raster(bytes@) is Ok,
        r is Ok ==> (r->Ok_0.width, r->Ok_0.height, r->Ok_0.pixels@)
            == decoded_raster(bytes@)->Ok_0,
        r is Ok ==> r->Ok_0@.wf(),
        r is Err ==> r->Err_0@ == decoded_raster(bytes@)->Err_0,
{
    match image::load_from_memory(bytes) {
        Ok(img) => {
            let rgb = img.into_rgb8();
            let (width, height) = (rgb.width(), rgb.height());
            Ok(RasterImage { width, height, pixels: rgb.into_raw() })
        }
        Err(e) => Err(format!("decode: {e}")),
    }
}

/// Relies on `fast_image_resize::Resizer::resize` over `U8x3` pixels with
/// the default (Lanczos3 convolution) algorithm: the crate's own tests pin
/// one identical result for every CPU extension, so the output is a function
/// of the arguments alone; the destination buffer holds exactly three bytes
/// per target pixel. `Image::from_vec_u8` and `Image::into_vec` only carry
/// the pixel buffer across the call.
#[verifier::external_body]
fn resample_rgb(
    pixels: &Vec<u8>,
    width: u32,
    height: u32,
    new_width: u32,
    new_height: u32,
) -> (r: Result<Vec<u8>, String>)
    ensures
        r is Ok <==> resampled(pixels@, width, height, new_width, new_height) is Ok,
        r is Ok ==> r->Ok_0@ == resampled(pixels@, width, height, new_width, new_height)->Ok_0,
        r is Ok ==> r->Ok_0@.len() == BYTES_PER_PIXEL * new_width * new_height,
        r is Err ==> r->Err_0@ == resampled(pixels@, width, height, new_width, new_height)->Err_0,
{
    let src = match Image::from_vec_u8(width, height, pixels.clone(), PixelType::U8x3) {
        Ok(src) => src,
        Err(e) => return Err(format!("resize: {e}")),
    };
    let mut dst = Image::new(new_width, new_height, PixelType::U8x3);
    match Resizer::new().resize(&src, &mut dst, None::<&ResizeOptions>) {
        Ok(()) => Ok(dst.into_vec()),
        Err(e) => Err(format!("resize: {e}")),
    }
}

/// Relies on `image::codecs::jpeg::JpegEncoder::encode` over `Rgb8` pixels:
/// baseline JPEG encoding is a function of the pixel bytes, the dimensions
/// and the quality alone. The encoder asserts that the buffer length matches
/// the dimensions, so that is required here.
#[verifier::external_body]
fn encode_jpeg(pixels: &Vec<u8>, width: u32, height: u32, quality: u8) -> (r: Result<
    Vec<u8>,
    String,
>)
    requires
        pixels@.len() == BYTES_PER_PIXEL * width * height,
    ensures
        r is Ok <==> jpeg_encoding(pixels@, width, height, quality) is Ok,
        r is Ok ==> r->Ok_0@ == jpeg_encoding(pixels@, width, height, quality)->Ok_0,
        r is Err ==> r->Err_0@ == jpeg_encoding(pixels@, width, height, quality)->Err_0,
{
    let mut out = Vec::<u8>::new();
    let mut encoder = image::codecs::jpeg::JpegEncoder::new_with_quality(&mut out, quality);
    match encoder.encode(pixels, width, height, image::ExtendedColorType::Rgb8) {
        Ok(()) => Ok(out),
        Err(e) => Err(format!("write_with_encoder: {e}")),
    }
}

/// One resize-and-encode trial at a fixed-point scale factor: both
/// dimensions are multiplied by `scale / SCALE_DEN` and rounded down, the
/// raster is resampled to that size (skipped when the width comes out
/// unchanged) and the result is JPEG-encoded at the fixed quality.
pub open spec fn spec_trial(img: RasterView, scale: u32) -> Result<Seq<u8>, Seq<char>> {
    let new_width = spec_scaled(img.width, scale) as u32;
    let new_height = spec_scaled(img.height, scale) as u32;
    if new_width == img.width {
        jpeg_encoding(img.pixels, img.width, img.height, QUALITY)
    } else {
        match resampled(img.pixels, img.width, img.height, new_width, new_height) {
            Ok(small) => jpeg_encoding(small, new_width, new_height, QUALITY),
            Err(e) => Err(e),
        }
    }
}

/// A trial at the identity scale factor never resamples: it is exactly the
/// JPEG encoding of the raster as it stands, at the fixed quality.
pub proof fn lemma_trial_identity_skips_resample(img: RasterView)
    ensures
        spec_trial(img, SCALE_ONE) == jpeg_encoding(img.pixels, img.width, img.height, QUALITY),
{
    crate::raster::lemma_scaled_one(img.width);
    crate::raster::lemma_scaled_one(img.height);
}

/// Scales the raster by the fixed-point factor and encodes it at the fixed
/// quality, skipping the resample when the scaled width equals the original.
pub fn try_compress_size(img: &RasterImage, scale: u32) -> (r: Result<Vec<u8>, String>)
    requires
        img@.wf(),
        scale <= SCALE_DEN,
    ensures
        r is Ok <==> spec_trial(img@, scale) is Ok,
        r matches Ok(out) ==> spec_trial(img@, scale) == Ok::<Seq<u8>, Seq<char>>(out@),
        r matches Err(e) ==> spec_trial(img@, scale) == Err::<Seq<u8>, Seq<char>>(e@),
{
    proof {
        lemma_scaled_le_dim(img.width, scale);
        lemma_scaled_le_dim(img.height, scale);
    }
    let new_width = scaled_dim(img.width, scale);
    let new_height = scaled_dim(img.height, scale);
    if new_width == img.width {
        encode_jpeg(&img.pixels, img.width, img.height, QUALITY)
    } else {
        match resample_rgb(&img.pixels, img.width, img.height, new_width, new_height) {
            Ok(small) => encode_jpeg(&small, new_width, new_height, QUALITY),
            Err(e) => Err(e),
        }
    }
}

} // verus!
