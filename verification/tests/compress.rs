use window_screenshot::artifact::{encoded_text_len, exceeds_text_ceiling, seal};
use window_screenshot::capture::RawCapture;
use window_screenshot::compress::{
    compress, effective_max_width, encode_within_budget, fit_to_width, lowered_quality,
    process_image, scaled_height, should_lower_quality, should_shrink, shrink_within_budget,
    shrunk_side, CompressionConfig,
};
use window_screenshot::error::ScreenshotError;
use window_screenshot::pipeline::finish;
use window_screenshot::request::ScreenshotParams;

fn flat(width: u32, height: u32) -> RawCapture {
    let len = 4 * width as usize * height as usize;
    RawCapture::new(width, height, vec![128u8; len]).unwrap()
}

fn noise(width: u32, height: u32) -> RawCapture {
    let len = 4 * width as usize * height as usize;
    let mut state: u32 = 0x2545_f491;
    let mut pixels = Vec::with_capacity(len);
    for _ in 0..len {
        state ^= state << 13;
        state ^= state >> 17;
        state ^= state << 5;
        pixels.push((state >> 24) as u8);
    }
    RawCapture::new(width, height, pixels).unwrap()
}

fn decoded_size(bytes: &[u8]) -> (u32, u32) {
    let picture = image::load_from_memory_with_format(bytes, image::ImageFormat::Jpeg).unwrap();
    (picture.width(), picture.height())
}

#[test]
fn capture_needs_four_bytes_per_pixel() {
    assert!(RawCapture::new(2, 3, vec![0u8; 24]).is_some());
    assert!(RawCapture::new(2, 3, vec![0u8; 23]).is_none());
    assert!(RawCapture::new(2, 3, vec![0u8; 25]).is_none());
    assert!(RawCapture::new(0, 5, Vec::new()).is_some());
    let capture = RawCapture::new(2, 3, vec![7u8; 24]).unwrap();
    assert_eq!(capture.width(), 2);
    assert_eq!(capture.height(), 3);
    assert_eq!(capture.pixels().len(), 24);
}

#[test]
fn target_width_defaults() {
    assert_eq!(effective_max_width(3840, None), 1920);
    assert_eq!(effective_max_width(1921, None), 1920);
    assert_eq!(effective_max_width(1920, None), 1920);
    assert_eq!(effective_max_width(640, None), 640);
    assert_eq!(effective_max_width(640, Some(1000)), 1000);
    assert_eq!(effective_max_width(3840, Some(300)), 300);
}

#[test]
fn scaled_height_rounds_down() {
    assert_eq!(scaled_height(2160, 3840, 1920), 1080);
    assert_eq!(scaled_height(3, 1000, 500), 1);
    assert_eq!(scaled_height(1000, 3, 2), 666);
    assert_eq!(scaled_height(7, 10, 0), 0);
    assert_eq!(scaled_height(u32::MAX, u32::MAX, u32::MAX - 1), u32::MAX - 1);
}

#[test]
fn shrunk_side_keeps_four_fifths() {
    assert_eq!(shrunk_side(1000), 800);
    assert_eq!(shrunk_side(1001), 800);
    assert_eq!(shrunk_side(1004), 803);
    assert_eq!(shrunk_side(801), 640);
    assert_eq!(shrunk_side(1), 0);
    assert_eq!(shrunk_side(0), 0);
    assert_eq!(shrunk_side(u32::MAX), 3435973836);
}

#[test]
fn quality_is_lowered_only_above_the_floor() {
    assert!(should_lower_quality(101, 100, 31));
    assert!(!should_lower_quality(101, 100, 30));
    assert!(!should_lower_quality(100, 100, 85));
    assert!(!should_lower_quality(0, 0, 85));
}

#[test]
fn image_is_shrunk_only_above_the_width_floor() {
    assert!(should_shrink(101, 100, 801));
    assert!(!should_shrink(101, 100, 800));
    assert!(!should_shrink(100, 100, 4000));
}

#[test]
fn text_length_and_ceiling() {
    assert_eq!(encoded_text_len(0), 0);
    assert_eq!(encoded_text_len(1), 4);
    assert_eq!(encoded_text_len(3), 4);
    assert_eq!(encoded_text_len(4), 8);
    assert_eq!(encoded_text_len(3_932_160), 5 * 1024 * 1024);
    assert!(!exceeds_text_ceiling(3_932_160));
    assert!(exceeds_text_ceiling(3_932_161));
}

#[test]
fn seal_writes_the_data_uri() {
    let artifact = seal(b"hello".to_vec(), 4, 2, 85).unwrap();
    assert_eq!(artifact.data_uri, "data:image/jpeg;base64,aGVsbG8=");
    assert_eq!(artifact.bytes, b"hello".to_vec());
    assert_eq!((artifact.width, artifact.height, artifact.quality), (4, 2, 85));
    let empty = seal(Vec::new(), 1, 1, 1).unwrap();
    assert_eq!(empty.data_uri, "data:image/jpeg;base64,");
}

#[test]
fn seal_refuses_what_is_too_long() {
    let at_ceiling = seal(vec![0u8; 3_932_160], 800, 600, 30).unwrap();
    assert_eq!(at_ceiling.data_uri.len(), 23 + 5 * 1024 * 1024);
    match seal(vec![0u8; 3_932_161], 800, 600, 30) {
        Err(ScreenshotError::TooLarge { text_len }) => assert_eq!(text_len, 5_242_884),
        other => panic!("expected TooLarge, got {:?}", other.map(|a| a.data_uri.len())),
    }
}

#[test]
fn default_path_halves_a_4k_capture() {
    let fitted = fit_to_width(flat(3840, 2160), None);
    assert_eq!(fitted.width(), 1920);
    assert_eq!(fitted.height(), 1080);
}

#[test]
fn narrow_capture_is_left_alone() {
    let image = noise(64, 48);
    let before = image.pixels().clone();
    let fitted = fit_to_width(image, None);
    assert_eq!((fitted.width(), fitted.height()), (64, 48));
    assert_eq!(fitted.pixels(), &before);
}

#[test]
fn requested_width_is_honoured() {
    let fitted = fit_to_width(flat(400, 200), Some(100));
    assert_eq!((fitted.width(), fitted.height()), (100, 50));
    assert_eq!(fitted.pixels().len(), 4 * 100 * 50);
}

#[test]
fn first_resize_gives_exactly_the_target_width() {
    let fitted = fit_to_width(noise(1000, 333), Some(500));
    assert_eq!((fitted.width(), fitted.height()), (500, 166));
    let wide = fit_to_width(flat(2000, 3), None);
    assert_eq!((wide.width(), wide.height()), (1920, 2));
    let same = fit_to_width(flat(500, 20), Some(500));
    assert_eq!((same.width(), same.height()), (500, 20));
    let wider_target = fit_to_width(flat(500, 20), Some(900));
    assert_eq!((wider_target.width(), wider_target.height()), (500, 20));
}

#[test]
fn each_shrinking_step_keeps_four_fifths_of_both_sides() {
    let image = noise(801, 600);
    let (bytes, quality) = encode_within_budget(&image, 30, 1).unwrap();
    let (last, encoded) = shrink_within_budget(image, bytes, quality, 1).unwrap();
    assert_eq!((last.width(), last.height()), (640, 480));
    assert_eq!(decoded_size(&encoded), (640, 480));
    let image = noise(1300, 30);
    let (bytes, quality) = encode_within_budget(&image, 30, 1).unwrap();
    let (last, _) = shrink_within_budget(image, bytes, quality, 1).unwrap();
    assert_eq!((last.width(), last.height()), (665, 15));
}

#[test]
fn shrinking_to_no_height_ends_with_the_codec_s_refusal() {
    let image = noise(1000, 1);
    let (bytes, quality) = encode_within_budget(&image, 30, 1).unwrap();
    match shrink_within_budget(image, bytes, quality, 1) {
        Err(ScreenshotError::EncodingFailed { cause }) => assert!(cause.contains("800 x 0")),
        other => panic!("expected EncodingFailed, got {:?}", other.map(|p| p.1.len())),
    }
    let config = CompressionConfig { quality: 85, max_width: None, max_size_bytes: 1 };
    assert!(matches!(
        compress(noise(1000, 1), &config),
        Err(ScreenshotError::EncodingFailed { .. })
    ));
}

#[test]
fn compress_gives_a_jpeg_of_the_reported_size() {
    let config = CompressionConfig { quality: 85, max_width: None, max_size_bytes: 2 * 1024 * 1024 };
    let artifact = compress(noise(120, 80), &config).unwrap();
    assert_eq!((artifact.width, artifact.height, artifact.quality), (120, 80, 85));
    assert_eq!(&artifact.bytes[..2], &[0xff, 0xd8]);
    assert_eq!(&artifact.bytes[artifact.bytes.len() - 2..], &[0xff, 0xd9]);
    assert_eq!(decoded_size(&artifact.bytes), (120, 80));
    assert!(artifact.data_uri.starts_with("data:image/jpeg;base64,"));
    assert_eq!(artifact.data_uri.len() as u128, 23 + encoded_text_len(artifact.bytes.len()));
}

#[test]
fn lower_quality_gives_fewer_bytes() {
    let image = noise(96, 96);
    let (high, q_high) = encode_within_budget(&image, 90, u64::MAX).unwrap();
    let (low, q_low) = encode_within_budget(&image, 30, u64::MAX).unwrap();
    assert_eq!((q_high, q_low), (90, 30));
    assert!(low.len() < high.len());
}

#[test]
fn a_step_lowers_quality_by_ten_but_not_under_the_floor() {
    assert_eq!(lowered_quality(85), 75);
    assert_eq!(lowered_quality(41), 31);
    assert_eq!(lowered_quality(40), 30);
    assert_eq!(lowered_quality(35), 30);
    assert_eq!(lowered_quality(31), 30);
    assert_eq!(lowered_quality(30), 30);
    assert_eq!(lowered_quality(5), 5);
    assert_eq!(lowered_quality(255), 245);
}

#[test]
fn quality_steps_down_and_stops_at_the_floor() {
    let image = noise(64, 64);
    let (at_floor, _) = encode_within_budget(&image, 30, u64::MAX).unwrap();
    let (bytes, from_85) = encode_within_budget(&image, 85, 1).unwrap();
    assert_eq!(from_85, 30);
    assert_eq!(bytes, at_floor);
    let (_, from_80) = encode_within_budget(&image, 80, 1).unwrap();
    assert_eq!(from_80, 30);
    let (_, from_31) = encode_within_budget(&image, 31, 1).unwrap();
    assert_eq!(from_31, 30);
    let (_, from_30) = encode_within_budget(&image, 30, 1).unwrap();
    assert_eq!(from_30, 30);
    let (_, from_20) = encode_within_budget(&image, 20, 1).unwrap();
    assert_eq!(from_20, 20);
}

#[test]
fn quality_stops_as_soon_as_the_bytes_fit() {
    let image = noise(64, 64);
    let (at_65, _) = encode_within_budget(&image, 65, u64::MAX).unwrap();
    let (at_75, _) = encode_within_budget(&image, 75, u64::MAX).unwrap();
    assert!(at_65.len() < at_75.len());
    let (bytes, quality) = encode_within_budget(&image, 85, at_65.len() as u64).unwrap();
    assert_eq!(quality, 65);
    assert_eq!(bytes, at_65);
}

#[test]
fn shrinking_stops_at_the_width_floor() {
    let image = noise(1000, 40);
    let (bytes, quality) = encode_within_budget(&image, 30, 1).unwrap();
    let (last, encoded) = shrink_within_budget(image, bytes, quality, 1).unwrap();
    assert_eq!((last.width(), last.height()), (800, 32));
    assert!(encoded.len() > 1);
    assert_eq!(decoded_size(&encoded), (800, 32));
}

#[test]
fn shrinking_is_skipped_within_budget() {
    let image = noise(1000, 40);
    let (bytes, quality) = encode_within_budget(&image, 50, u64::MAX).unwrap();
    let kept = bytes.clone();
    let (last, encoded) = shrink_within_budget(image, bytes, quality, u64::MAX).unwrap();
    assert_eq!((last.width(), last.height()), (1000, 40));
    assert_eq!(encoded, kept);
}

#[test]
fn over_budget_run_ends_within_budget_or_at_the_width_floor() {
    let budget = 1;
    let config = CompressionConfig { quality: 85, max_width: None, max_size_bytes: budget };
    let artifact = compress(noise(1300, 30), &config).unwrap();
    assert!(artifact.bytes.len() as u64 <= budget || artifact.width <= 800);
    assert_eq!(artifact.quality, 30);
    assert_eq!((artifact.width, artifact.height), (665, 15));
    assert_eq!(decoded_size(&artifact.bytes), (665, 15));
}

#[test]
fn over_budget_run_from_a_round_quality_keeps_the_floor() {
    let config = CompressionConfig { quality: 90, max_width: None, max_size_bytes: 1 };
    let artifact = compress(noise(900, 20), &config).unwrap();
    assert_eq!(artifact.quality, 30);
    assert!(artifact.width <= 800);
}

#[test]
fn budget_is_met_by_quality_where_it_can_be() {
    let image = noise(200, 100);
    let (at_45, _) = encode_within_budget(&image, 45, u64::MAX).unwrap();
    let config =
        CompressionConfig { quality: 85, max_width: None, max_size_bytes: at_45.len() as u64 };
    let artifact = compress(image, &config).unwrap();
    assert_eq!(artifact.quality, 45);
    assert_eq!(artifact.bytes, at_45);
    assert_eq!((artifact.width, artifact.height), (200, 100));
}

#[test]
fn empty_capture_cannot_be_encoded() {
    let config = CompressionConfig { quality: 85, max_width: None, max_size_bytes: 100 };
    match compress(flat(0, 0), &config) {
        Err(ScreenshotError::EncodingFailed { cause }) => {
            assert!(cause.contains("0 x 0"));
            assert!(cause.contains("JPEG"));
        }
        other => panic!("expected EncodingFailed, got {:?}", other.map(|a| a.width)),
    }
    assert!(matches!(
        compress(flat(5, 0), &config),
        Err(ScreenshotError::EncodingFailed { .. })
    ));
}

#[test]
fn oversized_side_cannot_be_encoded() {
    let config = CompressionConfig { quality: 85, max_width: Some(70000), max_size_bytes: 100 };
    assert!(matches!(
        compress(flat(65536, 1), &config),
        Err(ScreenshotError::EncodingFailed { .. })
    ));
    let roomy = CompressionConfig { quality: 85, max_width: None, max_size_bytes: u64::MAX };
    match compress(flat(65536, 1), &roomy) {
        Err(ScreenshotError::EncodingFailed { cause }) => assert!(cause.contains("1920 x 0")),
        other => panic!("expected EncodingFailed, got {:?}", other.map(|a| a.width)),
    }
    let widest =
        CompressionConfig { quality: 85, max_width: Some(65535), max_size_bytes: u64::MAX };
    let kept = compress(flat(65535, 1), &widest).unwrap();
    assert_eq!((kept.width, kept.height), (65535, 1));
}

#[test]
fn process_image_hands_out_the_data_uri() {
    let params = ScreenshotParams::new();
    let config = params.compression_config();
    let expected = compress(noise(50, 50), &config).unwrap();
    let data_url = process_image(noise(50, 50), &params).unwrap();
    assert_eq!(data_url, expected.data_uri);
    assert!(data_url.starts_with("data:image/jpeg;base64,/9j/"));
    assert!(data_url.len() <= 23 + 5 * 1024 * 1024);
}

#[test]
fn still_too_large_is_an_error() {
    let mut params = ScreenshotParams::new();
    params.quality = Some(100);
    params.max_size_bytes = Some(u64::MAX);
    match process_image(noise(800, 2600), &params) {
        Err(ScreenshotError::TooLarge { text_len }) => assert!(text_len > 5 * 1024 * 1024),
        Ok(data_url) => panic!("expected TooLarge, got {} characters", data_url.len()),
        Err(other) => panic!("expected TooLarge, got {:?}", other),
    }
}

#[test]
fn finish_passes_a_capture_failure_on() {
    let params = ScreenshotParams::new();
    match finish(Err("window destroyed".to_string()), &params) {
        Err(ScreenshotError::CaptureFailed { cause }) => assert_eq!(cause, "window destroyed"),
        other => panic!("expected CaptureFailed, got {:?}", other),
    }
}

#[test]
fn finish_hands_a_compressor_error_on_unchanged() {
    let params = ScreenshotParams::new();
    let direct = match process_image(flat(0, 7), &params) {
        Err(error) => error.message(),
        Ok(_) => panic!("expected an error"),
    };
    match finish(Ok(flat(0, 7)), &params) {
        Err(error) => assert_eq!(error.message(), direct),
        Ok(_) => panic!("expected an error"),
    }
    assert!(direct.starts_with("Failed to encode JPEG: "));
    assert!(direct.contains("0 x 7"));
}

#[test]
fn finish_answers_with_the_data_uri() {
    let params = ScreenshotParams::new();
    let response = finish(Ok(noise(40, 30)), &params).unwrap();
    assert!(response.success);
    assert!(response.error.is_none());
    assert_eq!(response.data.unwrap(), process_image(noise(40, 30), &params).unwrap());
}
