use screen_shot::error::ShotError;
use screen_shot::screenshot::{self, fallback, linux, macos, windows, Platform};

#[test]
fn supported_platforms() {
    assert!(screenshot::is_supported(Platform::Windows));
    assert!(screenshot::is_supported(Platform::MacOs));
    assert!(!screenshot::is_supported(Platform::Linux));
    assert!(!screenshot::is_supported(Platform::Unknown));
}

#[test]
fn platform_names() {
    assert_eq!(screenshot::platform_name(Platform::Windows), "windows");
    assert_eq!(screenshot::platform_name(Platform::MacOs), "macos");
    assert_eq!(screenshot::platform_name(Platform::Linux), "linux");
    assert_eq!(screenshot::platform_name(Platform::Unknown), "unknown");
}

#[test]
fn stub_providers_fail_capture() {
    assert!(matches!(linux::take_full_screen_internal(), Err(ShotError::CaptureFailed)));
    assert!(matches!(fallback::take_full_screen_internal(), Err(ShotError::CaptureFailed)));
}

#[test]
fn windows_handler_keeps_flags() {
    let c = windows::Capture::new(windows::CaptureFlags { mode: "full_screen".to_string() })
        .unwrap();
    assert_eq!(c.flags.unwrap().mode, "full_screen");
}

#[test]
fn error_messages_name_the_failure() {
    assert_eq!(
        ShotError::InvalidBufferSize.message(),
        "buffer length does not match dimensions"
    );
    assert_eq!(ShotError::UnsupportedMode.message(), "unrecognized capture format tag");
    assert_eq!(ShotError::EncoderInitFailure.message(), "encoder could not be constructed");
    assert_eq!(ShotError::EncodeFailure.message(), "encoder rejected the image");
    assert_eq!(ShotError::CropOutOfBounds.message(), "crop region exceeds source dimensions");
    assert_eq!(ShotError::CaptureFailed.message(), "screen capture failed on this platform");
}

#[test]
fn strip_row_padding_removes_stride() {
    // Two rows of 8 payload bytes, each padded to a 10-byte stride.
    let data: Vec<u8> = (0..20u8).collect();
    let out = macos::strip_row_padding(&data, 2, 8, 10);
    let mut expect: Vec<u8> = (0..8u8).collect();
    expect.extend(10..18u8);
    assert_eq!(out, expect);
}

#[test]
fn strip_row_padding_stops_at_truncated_row() {
    // A third row would need bytes 20..28, but the buffer ends at 20.
    let data: Vec<u8> = (0..20u8).collect();
    let out = macos::strip_row_padding(&data, 3, 8, 10);
    assert_eq!(out.len(), 16);
    // Degenerate cases: empty payload rows, and a buffer shorter than one row.
    assert_eq!(macos::strip_row_padding(&data, 3, 0, 10), Vec::<u8>::new());
    assert_eq!(macos::strip_row_padding(&vec![1, 2], 1, 8, 10), Vec::<u8>::new());
}
