use sizefit::codec::try_compress_size;
use sizefit::compress::{compress_source, CompressError, CompressOutcome};
use sizefit::event::{event_of, BackendEvent};
use sizefit::raster::{scaled_dim, RasterImage};
use sizefit::search::passable_size;

/// Deterministic pseudo-random RGB noise, so that JPEG sizes grow with the
/// pixel count.
fn noise_rgb(width: u32, height: u32) -> Vec<u8> {
    let count = (width * height * 3) as usize;
    let mut pixels = Vec::with_capacity(count);
    let mut state: u32 = 0x1234_5678;
    for _ in 0..count {
        state = state.wrapping_mul(1_664_525).wrapping_add(1_013_904_223);
        pixels.push((state >> 24) as u8);
    }
    pixels
}

fn png_of(pixels: &[u8], width: u32, height: u32) -> Vec<u8> {
    let mut out = Vec::new();
    let encoder = image::codecs::png::PngEncoder::new(&mut out);
    image::ImageEncoder::write_image(encoder, pixels, width, height, image::ExtendedColorType::Rgb8)
        .unwrap();
    out
}

fn jpeg_of(pixels: &[u8], width: u32, height: u32, quality: u8) -> Vec<u8> {
    let mut out = Vec::new();
    let mut encoder = image::codecs::jpeg::JpegEncoder::new_with_quality(&mut out, quality);
    encoder
        .encode(pixels, width, height, image::ExtendedColorType::Rgb8)
        .unwrap();
    out
}

fn decoded_dims(bytes: &[u8]) -> (u32, u32) {
    let img = image::load_from_memory(bytes).unwrap();
    (img.width(), img.height())
}

fn encoded_bytes(result: Result<CompressOutcome, CompressError>) -> Vec<u8> {
    match result {
        Ok(CompressOutcome::Encoded(bytes)) => bytes,
        other => panic!("expected an encoded outcome, got {:?}", outcome_tag(&other)),
    }
}

fn outcome_tag(result: &Result<CompressOutcome, CompressError>) -> &'static str {
    match result {
        Ok(CompressOutcome::Passthrough) => "passthrough",
        Ok(CompressOutcome::Encoded(_)) => "encoded",
        Err(CompressError::UnknownFormat(_)) => "unknown format",
        Err(CompressError::Decode(_)) => "decode error",
        Err(CompressError::Trial(_)) => "trial error",
        Err(CompressError::SizeLimit) => "size limit",
    }
}

#[test]
fn jpeg_under_budget_passes_through() {
    let source = jpeg_of(&noise_rgb(64, 64), 64, 64, 80);
    let budget = source.len() + 1;
    let result = compress_source(&source, budget);
    assert!(matches!(result, Ok(CompressOutcome::Passthrough)));
    assert!(matches!(event_of(&result), BackendEvent::Done));
}

#[test]
fn jpeg_at_budget_is_not_passed_through() {
    let source = jpeg_of(&noise_rgb(64, 64), 64, 64, 80);
    let budget = source.len();
    let result = compress_source(&source, budget);
    assert!(!matches!(result, Ok(CompressOutcome::Passthrough)));
}

#[test]
fn png_is_reencoded_even_under_budget() {
    let pixels = noise_rgb(64, 64);
    let source = png_of(&pixels, 64, 64);
    let result = compress_source(&source, 10_000_000);
    let bytes = encoded_bytes(result);
    assert_eq!(image::guess_format(&bytes).unwrap(), image::ImageFormat::Jpeg);
    assert_eq!(decoded_dims(&bytes), (64, 64));
}

#[test]
fn unscaled_reencode_is_final_when_it_fits() {
    let pixels = noise_rgb(120, 90);
    let source = png_of(&pixels, 120, 90);
    let unscaled = encoded_bytes(compress_source(&source, 10_000_000));
    let budget = unscaled.len() + 1;
    let again = encoded_bytes(compress_source(&source, budget));
    assert_eq!(again, unscaled);
    assert!(again.len() < budget);
    assert_eq!(decoded_dims(&again), (120, 90));
}

#[test]
fn search_finds_a_smaller_encoding() {
    let pixels = noise_rgb(200, 200);
    let source = png_of(&pixels, 200, 200);
    let unscaled = encoded_bytes(compress_source(&source, 100_000_000));
    let budget = unscaled.len();
    let result = compress_source(&source, budget);
    let bytes = encoded_bytes(result);
    assert!(bytes.len() < budget);
    let (width, height) = decoded_dims(&bytes);
    assert!(width < 200 && height < 200);
    assert_eq!(image::guess_format(&bytes).unwrap(), image::ImageFormat::Jpeg);
}

#[test]
fn impossible_budget_exhausts_the_search() {
    let pixels = noise_rgb(64, 64);
    let source = png_of(&pixels, 64, 64);
    let result = compress_source(&source, 1);
    assert!(matches!(result, Err(CompressError::SizeLimit)));
    match event_of(&result) {
        BackendEvent::Failed { msg } => {
            assert_eq!(msg, "Unable to compress within size limit");
        }
        _ => panic!("expected a failure event"),
    }
}

#[test]
fn jpeg_over_budget_exhausts_too() {
    let source = jpeg_of(&noise_rgb(64, 64), 64, 64, 80);
    let result = compress_source(&source, 1);
    assert!(matches!(result, Err(CompressError::SizeLimit)));
}

#[test]
fn jpeg_over_budget_takes_the_unscaled_shortcut() {
    let pixels = noise_rgb(160, 160);
    let source = jpeg_of(&pixels, 160, 160, 95);
    let budget = source.len();
    let result = compress_source(&source, budget);
    let bytes = encoded_bytes(result);
    let decoded = image::load_from_memory(&source).unwrap().into_rgb8();
    let img = RasterImage::new(decoded.width(), decoded.height(), decoded.into_raw()).unwrap();
    let reencoded = try_compress_size(&img, 10000).unwrap();
    assert!(reencoded.len() < budget);
    assert_eq!(bytes, reencoded);
    assert_eq!(decoded_dims(&bytes), (160, 160));
}

#[test]
fn rerunning_the_same_invocation_is_byte_identical() {
    let pixels = noise_rgb(200, 200);
    let source = png_of(&pixels, 200, 200);
    let unscaled = encoded_bytes(compress_source(&source, 100_000_000));
    let budget = unscaled.len();
    let first = encoded_bytes(compress_source(&source, budget));
    let second = encoded_bytes(compress_source(&source, budget));
    assert_eq!(first, second);
}

#[test]
fn unguessable_bytes_fail_with_format_error() {
    let source = vec![0u8; 16];
    let result = compress_source(&source, 1_000_000);
    assert!(matches!(result, Err(CompressError::UnknownFormat(_))));
}

#[test]
fn truncated_png_fails_with_decode_error() {
    let pixels = noise_rgb(64, 64);
    let mut source = png_of(&pixels, 64, 64);
    source.truncate(24);
    let result = compress_source(&source, 1_000_000);
    assert!(matches!(result, Err(CompressError::Decode(_))));
    match event_of(&result) {
        BackendEvent::Failed { msg } => assert!(msg.starts_with("decode: ")),
        _ => panic!("expected a failure event"),
    }
}

#[test]
fn scaled_dim_rounds_down() {
    assert_eq!(scaled_dim(4000, 5500), 2200);
    assert_eq!(scaled_dim(4000, 10000), 4000);
    assert_eq!(scaled_dim(3, 5500), 1);
    assert_eq!(scaled_dim(1, 1000), 0);
    assert_eq!(scaled_dim(0, 10000), 0);
}

#[test]
fn passable_threshold_is_nine_tenths() {
    assert_eq!(passable_size(200_000), 180_000);
    assert_eq!(passable_size(10), 9);
    assert_eq!(passable_size(1), 0);
    assert_eq!(passable_size(0), 0);
}

#[test]
fn raster_builder_checks_the_buffer_length() {
    assert!(RasterImage::new(2, 2, vec![0u8; 12]).is_some());
    assert!(RasterImage::new(2, 2, vec![0u8; 11]).is_none());
    assert!(RasterImage::new(2, 2, vec![0u8; 13]).is_none());
}

#[test]
fn trial_at_identity_scale_keeps_the_dimensions() {
    let img = RasterImage::new(8, 8, noise_rgb(8, 8)).unwrap();
    let bytes = try_compress_size(&img, 10000).unwrap();
    assert_eq!(image::guess_format(&bytes).unwrap(), image::ImageFormat::Jpeg);
    assert_eq!(decoded_dims(&bytes), (8, 8));
}

#[test]
fn trial_at_half_scale_resamples() {
    let img = RasterImage::new(8, 8, noise_rgb(8, 8)).unwrap();
    let bytes = try_compress_size(&img, 5000).unwrap();
    assert_eq!(decoded_dims(&bytes), (4, 4));
}

#[test]
fn size_limit_message_is_fixed() {
    assert_eq!(
        CompressError::SizeLimit.message(),
        "Unable to compress within size limit"
    );
}
