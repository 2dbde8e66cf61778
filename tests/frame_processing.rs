use framebot::config::{JPEG_QUALITY_STEP, MAX_JPEG_SIZE, MIN_JPEG_QUALITY};
use framebot::error::FrameError;
use framebot::frame_processing::{
    compress_to_jpeg, get_image_dimensions, process_frame, search_step, CompressionSettings,
    RgbFrame, SearchStep,
};

fn noise_pixels(width: u32, height: u32, seed: u32) -> Vec<u8> {
    let mut state = seed;
    let mut out = Vec::new();
    for _ in 0..(width * height * 3) {
        state = state.wrapping_mul(1_664_525).wrapping_add(1_013_904_223);
        out.push((state >> 24) as u8);
    }
    out
}

fn jpeg_of(width: u32, height: u32, quality: u8) -> Vec<u8> {
    let pixels = noise_pixels(width, height, 7);
    let mut out = Vec::new();
    image::codecs::jpeg::JpegEncoder::new_with_quality(&mut out, quality)
        .encode(&pixels, width, height, image::ExtendedColorType::Rgb8)
        .unwrap();
    out
}

fn jpeg_with_profile(width: u32, height: u32, profile: &[u8]) -> Vec<u8> {
    let pixels = noise_pixels(width, height, 11);
    let mut out = Vec::new();
    let mut encoder = image::codecs::jpeg::JpegEncoder::new_with_quality(&mut out, 100);
    image::ImageEncoder::set_icc_profile(&mut encoder, profile.to_vec()).unwrap();
    encoder.encode(&pixels, width, height, image::ExtendedColorType::Rgb8).unwrap();
    out
}

fn profile_of(jpeg: &[u8]) -> Option<Vec<u8>> {
    let mut decoder = image::codecs::jpeg::JpegDecoder::new(std::io::Cursor::new(jpeg)).unwrap();
    image::ImageDecoder::icc_profile(&mut decoder).unwrap()
}

fn settings(max_size: usize) -> CompressionSettings {
    CompressionSettings { max_size, min_quality: 10, quality_step: 5 }
}

#[test]
fn standard_settings_use_configured_limits() {
    let s = CompressionSettings::standard();
    assert_eq!(s.max_size, MAX_JPEG_SIZE);
    assert_eq!(s.min_quality, MIN_JPEG_QUALITY);
    assert_eq!(s.quality_step, JPEG_QUALITY_STEP);
    assert_eq!(s, CompressionSettings { max_size: 1_000_000, min_quality: 10, quality_step: 5 });
}

#[test]
fn search_accepts_second_attempt_in_concrete_scenario() {
    let s = CompressionSettings::standard();
    assert_eq!(search_step(1_200_000, 100, &s), SearchStep::Retry { quality: 95 });
    assert_eq!(search_step(950_000, 95, &s), SearchStep::Accept);
}

#[test]
fn search_accepts_size_equal_to_limit() {
    assert_eq!(search_step(1_000_000, 100, &CompressionSettings::standard()), SearchStep::Accept);
}

#[test]
fn search_walks_down_to_floor_before_giving_up() {
    let s = CompressionSettings { max_size: 100, min_quality: 10, quality_step: 7 };
    let mut quality = 100u8;
    let mut tried = vec![quality];
    loop {
        match search_step(1_000, quality, &s) {
            SearchStep::Retry { quality: next } => {
                quality = next;
                tried.push(next);
            }
            SearchStep::GiveUp => break,
            SearchStep::Accept => panic!("nothing fits"),
        }
    }
    assert_eq!(tried, vec![100, 93, 86, 79, 72, 65, 58, 51, 44, 37, 30, 23, 16, 10]);
}

#[test]
fn search_step_clamps_to_floor() {
    let s = CompressionSettings { max_size: 10, min_quality: 10, quality_step: 200 };
    assert_eq!(search_step(11, 100, &s), SearchStep::Retry { quality: 10 });
    assert_eq!(search_step(11, 10, &s), SearchStep::GiveUp);
}

#[test]
fn small_source_passes_through_unchanged() {
    let source = jpeg_of(16, 8, 90);
    let result = process_frame(source.clone(), 3, &CompressionSettings::standard()).unwrap();
    assert_eq!(result.jpeg_data, source);
    assert_eq!(result.quality_used, None);
    assert_eq!(result.dimensions.width, 16);
    assert_eq!(result.dimensions.height, 8);
}

#[test]
fn dimensions_of_kept_source() {
    let source = jpeg_of(24, 10, 80);
    let result = get_image_dimensions(source.clone(), 1).unwrap();
    assert_eq!(result.jpeg_data, source);
    assert_eq!((result.dimensions.width, result.dimensions.height), (24, 10));
}

#[test]
fn large_source_is_recompressed_under_limit() {
    let source = jpeg_of(64, 64, 100);
    let limit = source.len() / 2;
    let result = process_frame(source.clone(), 4, &settings(limit)).unwrap();
    let quality = result.quality_used.unwrap();
    assert!(quality < 100 && quality >= 10);
    assert!(result.jpeg_data.len() <= limit);
    assert_ne!(result.jpeg_data, source);
    assert_eq!(&result.jpeg_data[..2], &[0xFF, 0xD8]);
    assert_eq!((result.dimensions.width, result.dimensions.height), (64, 64));
}

#[test]
fn incompressible_source_fails_at_floor() {
    let source = jpeg_of(64, 64, 100);
    match process_frame(source, 9, &settings(100)) {
        Err(FrameError::CompressionFailed { frame, max_size }) => {
            assert_eq!(frame, 9);
            assert_eq!(max_size, 100);
        }
        other => panic!("unexpected result: {:?}", other),
    }
}

#[test]
fn recompression_is_deterministic() {
    let source = jpeg_of(48, 32, 100);
    let s = settings(source.len() / 2);
    let a = process_frame(source.clone(), 2, &s).unwrap();
    let b = process_frame(source, 2, &s).unwrap();
    assert_eq!(a.jpeg_data, b.jpeg_data);
    assert_eq!(a.quality_used, b.quality_used);
}

#[test]
fn undecodable_source_fails_to_decode() {
    let garbage = vec![1u8, 2, 3, 4, 5, 6, 7, 8];
    assert!(matches!(
        process_frame(garbage.clone(), 1, &CompressionSettings::standard()),
        Err(FrameError::Image(_))
    ));
    assert!(matches!(process_frame(garbage, 1, &settings(2)), Err(FrameError::Image(_))));
}

#[test]
fn compress_encodes_pixels_as_jpeg() {
    let frame = RgbFrame { width: 8, height: 8, pixels: noise_pixels(8, 8, 3), icc_profile: Vec::new() };
    let (jpeg, quality) = compress_to_jpeg(&frame, 1, &settings(1_000_000)).unwrap();
    assert_eq!(quality, 100);
    assert_eq!(&jpeg[..2], &[0xFF, 0xD8]);
    assert_ne!(jpeg, frame.pixels);
    let decoded = image::load_from_memory(&jpeg).unwrap();
    assert_eq!((decoded.width(), decoded.height()), (8, 8));
}

#[test]
fn compress_reports_floor_failure() {
    let frame = RgbFrame { width: 32, height: 32, pixels: noise_pixels(32, 32, 5), icc_profile: Vec::new() };
    assert!(matches!(
        compress_to_jpeg(&frame, 6, &settings(50)),
        Err(FrameError::CompressionFailed { frame: 6, max_size: 50 })
    ));
}

#[test]
fn recompression_keeps_color_profile() {
    let profile: Vec<u8> = (0..200u32).map(|i| (i * 7 % 251) as u8).collect();
    let source = jpeg_with_profile(64, 48, &profile);
    assert_eq!(profile_of(&source), Some(profile.clone()));
    let result = process_frame(source.clone(), 5, &settings(source.len() / 2)).unwrap();
    assert!(result.quality_used.is_some());
    assert_eq!(profile_of(&result.jpeg_data), Some(profile));
}

#[test]
fn recompression_without_profile_adds_none() {
    let source = jpeg_of(64, 48, 100);
    let result = process_frame(source.clone(), 5, &settings(source.len() / 2)).unwrap();
    assert_eq!(profile_of(&result.jpeg_data), None);
}

#[test]
fn compress_embeds_given_profile() {
    let profile = vec![9u8; 40];
    let frame = RgbFrame { width: 8, height: 8, pixels: noise_pixels(8, 8, 4), icc_profile: profile.clone() };
    let (jpeg, _) = compress_to_jpeg(&frame, 1, &settings(1_000_000)).unwrap();
    assert_eq!(profile_of(&jpeg), Some(profile));
}

#[test]
fn small_source_that_is_not_jpeg_is_not_passed_through() {
    let garbage = vec![0x89u8, b'P', b'N', b'G'];
    assert!(matches!(
        process_frame(garbage, 1, &CompressionSettings::standard()),
        Err(FrameError::Image(_))
    ));
}

#[test]
fn recompressed_frame_reports_source_dimensions() {
    let source = jpeg_of(40, 24, 100);
    let result = process_frame(source.clone(), 8, &settings(source.len() / 2)).unwrap();
    assert!(result.quality_used.is_some());
    assert_eq!((result.dimensions.width, result.dimensions.height), (40, 24));
}
