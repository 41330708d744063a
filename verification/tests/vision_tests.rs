use glimpser::error::Error;
use glimpser::vision::{
    calculate_pixel_diff, create_test_frame_pair, create_test_frame_with_motion, downscale_target,
    frame_fits, frame_from_image_bytes, frame_from_raw, image_to_jpeg_bytes, scale_frame,
    MotionAlgorithm, PixelDiffDetector,
};

/// The per-pixel threshold a fractional sensitivity stands for.
fn threshold_value(threshold: f64) -> u8 {
    (255.0 * threshold) as u8
}

fn test_detector(threshold: f64, min_change_area: u32) -> PixelDiffDetector {
    PixelDiffDetector::new(threshold_value(threshold), min_change_area)
}

fn pixel(frame: &[u8], width: u32, x: u32, y: u32) -> u8 {
    frame[(y * width + x) as usize]
}

#[test]
fn test_create_test_frame_with_motion() {
    let frame = create_test_frame_with_motion(100, 100, 10, 10, 20, 20, 200);
    assert_eq!(frame.len(), 100 * 100);

    assert_eq!(pixel(&frame, 100, 5, 5), 64);
    assert_eq!(pixel(&frame, 100, 15, 15), 200);
}

#[test]
fn test_create_test_frame_pair() {
    let (frame1, frame2) = create_test_frame_pair(100, 100);
    assert_eq!(frame1.len(), 100 * 100);
    assert_eq!(frame2.len(), 100 * 100);

    assert_eq!(pixel(&frame1, 100, 50, 50), 64);
    assert_eq!(pixel(&frame2, 100, 20, 20), 200);
}

#[test]
fn test_pixel_diff_detector_creation() {
    let detector = test_detector(0.1, 50);
    assert_eq!(detector.algorithm_name(), "PixelDiff");
}

#[test]
fn test_pixel_diff_no_previous_frame() {
    let mut detector = test_detector(0.1, 50);

    let frame = create_test_frame_with_motion(100, 100, 10, 10, 20, 20, 200);

    let result = detector.detect_motion(&frame, 100, 100);

    assert!(!result.motion_detected);
    assert!(result.first_frame);
    assert_eq!(result.changed_pixels, 0);
    assert_eq!(detector.algorithm_name(), "PixelDiff");
}

#[test]
fn test_pixel_diff_with_motion() {
    let mut detector = test_detector(0.1, 50);

    let (frame1, frame2) = create_test_frame_pair(100, 100);

    let result1 = detector.detect_motion(&frame1, 100, 100);
    assert!(!result1.motion_detected);

    let result2 = detector.detect_motion(&frame2, 100, 100);
    assert!(result2.motion_detected);
    assert!(result2.changed_pixels >= 50);
    assert!(result2.changed_pixels > 0);
    assert_eq!(result2.total_pixels, 10000);
}

#[test]
fn test_pixel_diff_no_motion() {
    let mut detector = test_detector(0.1, 50);

    let frame = create_test_frame_with_motion(100, 100, 10, 10, 20, 20, 200);

    let result1 = detector.detect_motion(&frame, 100, 100);
    assert!(!result1.motion_detected);

    let result2 = detector.detect_motion(&frame, 100, 100);
    assert!(!result2.motion_detected);
    assert_eq!(result2.changed_pixels, 0);
}

#[test]
fn test_pixel_diff_small_changes() {
    let mut detector = test_detector(0.1, 1000);

    let frame1 = create_test_frame_with_motion(100, 100, 0, 0, 0, 0, 64);
    let frame2 = create_test_frame_with_motion(100, 100, 50, 50, 5, 5, 200);

    let result1 = detector.detect_motion(&frame1, 100, 100);
    assert!(!result1.motion_detected);

    let result2 = detector.detect_motion(&frame2, 100, 100);
    assert!(!result2.motion_detected);
    assert!(result2.changed_pixels > 0);
    assert!(result2.changed_pixels < 1000);
}

#[test]
fn test_pixel_diff_reset() {
    let mut detector = test_detector(0.1, 50);

    let frame = create_test_frame_with_motion(100, 100, 10, 10, 20, 20, 200);

    let _result = detector.detect_motion(&frame, 100, 100);
    assert!(detector.has_previous_frame());

    detector.reset();
    assert!(!detector.has_previous_frame());
    assert_eq!(detector.frame_dimensions(), (0, 0));
}

#[test]
fn test_pixel_diff_different_thresholds() {
    let mut detector_high = test_detector(0.5, 50);
    let mut detector_low = test_detector(0.05, 50);

    let frame1 = create_test_frame_with_motion(100, 100, 0, 0, 0, 0, 64);
    let frame2 = create_test_frame_with_motion(100, 100, 10, 10, 20, 20, 100);

    let _ = detector_high.detect_motion(&frame1, 100, 100);
    let _ = detector_low.detect_motion(&frame1, 100, 100);

    let result_high = detector_high.detect_motion(&frame2, 100, 100);
    let result_low = detector_low.detect_motion(&frame2, 100, 100);

    assert!(result_low.changed_pixels >= result_high.changed_pixels);
}

// ---------------------------------------------------------------------------
// Further cases
// ---------------------------------------------------------------------------

#[test]
fn pixel_diff_counts_exactly() {
    let cur = [10u8, 50, 100, 0];
    let prev = [10u8, 20, 140, 26];
    // differences 0, 30, 40, 26: above 25 are 30, 40 and 26
    assert_eq!(calculate_pixel_diff(&cur, &prev, 25), 3);
    assert_eq!(calculate_pixel_diff(&cur, &prev, 26), 2);
    assert_eq!(calculate_pixel_diff(&cur, &cur, 0), 0);
}

#[test]
fn pixel_diff_square_counts_its_area() {
    let (a, b) = create_test_frame_pair(100, 100);
    assert_eq!(calculate_pixel_diff(&b, &a, 25), 2500);
}

#[test]
fn frame_size_change_restarts_reference() {
    let mut d = test_detector(0.1, 1);
    let a = create_test_frame_with_motion(10, 10, 0, 0, 0, 0, 64);
    let b = create_test_frame_with_motion(20, 10, 0, 0, 0, 0, 200);
    let _ = d.detect_motion(&a, 10, 10);
    let r = d.detect_motion(&b, 20, 10);
    assert!(r.first_frame);
    assert!(!r.motion_detected);
    assert_eq!(d.frame_dimensions(), (20, 10));
}

#[test]
fn motion_threshold_is_inclusive() {
    let mut d = test_detector(0.1, 2500);
    let (a, b) = create_test_frame_pair(100, 100);
    let _ = d.detect_motion(&a, 100, 100);
    let r = d.detect_motion(&b, 100, 100);
    assert_eq!(r.changed_pixels, 2500);
    assert!(r.motion_detected);
}

#[test]
fn downscale_targets() {
    assert_eq!(downscale_target(1280, 720, 4, 320, 240), Some((320, 180)));
    assert_eq!(downscale_target(100, 100, 1, 100, 100), None);
    assert_eq!(downscale_target(4000, 4000, 2, 320, 240), Some((320, 240)));
}

#[test]
fn frame_fit_check() {
    assert!(frame_fits(100, 10, 10));
    assert!(frame_fits(101, 10, 10));
    assert!(!frame_fits(99, 10, 10));
}

#[test]
fn default_algorithm_is_pixel_diff() {
    assert!(matches!(MotionAlgorithm::default_algorithm(), MotionAlgorithm::PixelDiff));
}

#[test]
fn test_image_to_jpeg_bytes() {
    let frame = create_test_frame_with_motion(50, 50, 5, 5, 10, 10, 200);
    let jpeg_bytes = image_to_jpeg_bytes(&frame, 50, 50);
    assert!(jpeg_bytes.is_ok());

    let bytes = jpeg_bytes.unwrap();
    assert!(!bytes.is_empty());
    assert!(bytes.len() > 100);
}

#[test]
fn encoded_frames_decode_and_scale() {
    let frame = create_test_frame_with_motion(64, 48, 0, 0, 0, 0, 64);
    let jpeg = image_to_jpeg_bytes(&frame, 64, 48).unwrap();
    let (pixels, w, h) = frame_from_image_bytes(&jpeg, 4, 320, 240).unwrap();
    assert_eq!((w, h), (16, 12));
    assert_eq!(pixels.len(), 16 * 12);
    let (same, w, h) = frame_from_image_bytes(&jpeg, 1, 320, 240).unwrap();
    assert_eq!((w, h), (64, 48));
    assert_eq!(same.len(), 64 * 48);
}

#[test]
fn undecodable_bytes_are_refused() {
    let e = frame_from_image_bytes(b"not an image", 4, 320, 240).unwrap_err();
    assert!(matches!(e, Error::Validation(_)));
    assert!(e.detail().starts_with("Failed to decode image: "));
}

#[test]
fn raw_frames_are_checked_and_scaled() {
    let e = frame_from_raw(&[1, 2, 3], 2, 2, 1, 10, 10).unwrap_err();
    assert_eq!(e.detail(), "Invalid frame data dimensions");
    let frame = create_test_frame_with_motion(8, 8, 0, 0, 4, 8, 200);
    let (pixels, w, h) = frame_from_raw(&frame, 8, 8, 2, 320, 240).unwrap();
    assert_eq!((w, h), (4, 4));
    assert_eq!(pixels.len(), 16);
    let (kept, w, h) = scale_frame(&frame, 8, 8, 1, 320, 240);
    assert_eq!((w, h), (8, 8));
    assert_eq!(kept, frame);
    let (capped, w, h) = scale_frame(&frame, 8, 8, 1, 4, 2);
    assert_eq!((w, h), (4, 2));
    assert_eq!(capped.len(), 8);
}
