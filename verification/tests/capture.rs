use screencast::capture::{
    Bitmap, DisplayProbe, ProbeStep, ScreenCapture, RETRY_DELAY_SECS, STARTUP_ATTEMPTS,
};
use screencast::config::CaptureConfig;
use screencast::error::AppError;

fn capture_of(displays: Vec<u32>) -> ScreenCapture {
    ScreenCapture::new(CaptureConfig::default(), displays, true).unwrap()
}

fn capture_error(result: Result<impl std::fmt::Debug, AppError>) -> String {
    match result {
        Err(AppError::CaptureError(m)) => m,
        other => panic!("expected a capture error, got {:?}", other),
    }
}

#[test]
fn default_config_values() {
    let config = CaptureConfig::default();
    assert_eq!(config.fps, 30);
    assert_eq!(config.quality, 80);
    assert_eq!(config.width, 1920);
    assert_eq!(config.height, 1080);
}

#[test]
fn probe_finds_displays_at_once() {
    let mut probe = DisplayProbe::new();
    match probe.on_listing(Some(vec![7, 8])) {
        ProbeStep::Found(ids) => assert_eq!(ids, vec![7, 8]),
        other => panic!("expected displays, got {:?}", other),
    }
    assert!(!probe.is_exhausted());
}

#[test]
fn probe_gives_up_after_three_attempts() {
    assert_eq!(STARTUP_ATTEMPTS, 3);
    assert_eq!(RETRY_DELAY_SECS, 1);
    let mut probe = DisplayProbe::new();
    assert!(matches!(probe.on_listing(None), ProbeStep::Retry));
    assert!(matches!(probe.on_listing(Some(Vec::new())), ProbeStep::Retry));
    assert!(!probe.is_exhausted());
    assert!(matches!(probe.on_listing(None), ProbeStep::GiveUp));
    assert!(probe.is_exhausted());
    // and stays so
    assert!(matches!(probe.on_listing(None), ProbeStep::GiveUp));
}

#[test]
fn probe_finds_displays_on_the_last_attempt() {
    let mut probe = DisplayProbe::new();
    assert!(matches!(probe.on_listing(None), ProbeStep::Retry));
    assert!(matches!(probe.on_listing(None), ProbeStep::Retry));
    assert!(matches!(probe.on_listing(Some(vec![1])), ProbeStep::Found(_)));
}

#[test]
fn capture_needs_a_display() {
    let message = capture_error(ScreenCapture::new(CaptureConfig::default(), Vec::new(), true));
    assert_eq!(
        message,
        "No displays found. Please make sure screen recording permission is granted in System Settings > Privacy & Security > Screen Recording and restart the application."
    );
    let message = capture_error(ScreenCapture::new(CaptureConfig::default(), Vec::new(), false));
    assert!(message.starts_with("No displays found."));
}

#[test]
fn capture_needs_permission() {
    let message = capture_error(ScreenCapture::new(CaptureConfig::default(), vec![1], false));
    assert_eq!(
        message,
        "Screen recording permission not granted. Please grant permission in System Settings > Privacy & Security > Screen Recording and restart the application."
    );
}

#[test]
fn capture_starts_on_the_first_display() {
    let capture = capture_of(vec![11, 22, 33]);
    assert_eq!(capture.get_display_count(), 3);
    assert_eq!(capture.display_id(), 11);
    assert_eq!(capture.config().fps, 30);
}

#[test]
fn set_display_selects_a_listed_display() {
    let mut capture = capture_of(vec![11, 22, 33]);
    assert!(capture.set_display(2).is_ok());
    assert_eq!(capture.display_id(), 33);
    assert!(capture.set_display(0).is_ok());
    assert_eq!(capture.display_id(), 11);
}

#[test]
fn set_display_refuses_an_unlisted_display() {
    let mut capture = capture_of(vec![11, 22, 33]);
    capture.set_display(1).unwrap();
    assert_eq!(capture_error(capture.set_display(3)), "Invalid display index: 3");
    assert_eq!(capture_error(capture.set_display(125)), "Invalid display index: 125");
    assert_eq!(
        capture_error(capture.set_display(usize::MAX)),
        format!("Invalid display index: {}", usize::MAX)
    );
    // the selection is as it was
    assert_eq!(capture.display_id(), 22);
}

#[test]
fn capture_frame_without_a_picture_fails() {
    let capture = capture_of(vec![1]);
    assert_eq!(
        capture_error(capture.capture_frame(None)),
        "Failed to capture screen. Please check screen recording permissions and restart the application."
    );
}

#[test]
fn capture_frame_takes_the_bitmap_as_it_is() {
    let capture = capture_of(vec![1]);
    let data = vec![1u8, 2, 3, 4, 9, 9, 5, 6, 7, 8, 9, 9];
    let bitmap = Bitmap { width: 1, height: 2, bytes_per_row: 6, data: data.clone() };
    let frame = capture.capture_frame(Some(bitmap)).unwrap();
    assert_eq!((frame.width(), frame.height(), frame.stride()), (1, 2, 6));
    assert_eq!(frame.data(), &data);
    assert_eq!(frame.packed(), vec![1, 2, 3, 4, 5, 6, 7, 8]);
}

#[test]
fn capture_frame_refuses_an_inconsistent_bitmap() {
    let capture = capture_of(vec![1]);
    let short = Bitmap { width: 2, height: 2, bytes_per_row: 8, data: vec![0u8; 15] };
    assert!(matches!(capture.capture_frame(Some(short)), Err(AppError::CaptureError(_))));
    let narrow = Bitmap { width: 2, height: 2, bytes_per_row: 7, data: vec![0u8; 14] };
    assert!(matches!(capture.capture_frame(Some(narrow)), Err(AppError::CaptureError(_))));
}
