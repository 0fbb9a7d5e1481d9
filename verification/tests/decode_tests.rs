use screen_shot::api::{CaptureResult, DecodedImage};
use screen_shot::error::ShotError;
use screen_shot::mode::CaptureMode;

fn sdr_frame(bytes: Vec<u8>, w: u32, h: u32) -> CaptureResult {
    CaptureResult { mode: "sdr_macos".to_string(), raw_data: bytes, frame_width: w, frame_height: h }
}

fn hdr_frame(bytes: Vec<u8>, w: u32, h: u32) -> CaptureResult {
    CaptureResult {
        mode: "full_screen".to_string(),
        raw_data: bytes,
        frame_width: w,
        frame_height: h,
    }
}

#[test]
fn decode_sdr_swizzles_bgra_to_rgba() {
    let frame = sdr_frame(vec![10, 20, 30, 40, 50, 60, 70, 80], 2, 1);
    match frame.decode().unwrap() {
        DecodedImage::Sdr(ps) => {
            assert_eq!(ps.len(), 2);
            assert_eq!((ps[0].r, ps[0].g, ps[0].b, ps[0].a), (30, 20, 10, 40));
            assert_eq!((ps[1].r, ps[1].g, ps[1].b, ps[1].a), (70, 60, 50, 80));
        }
        DecodedImage::Hdr(_) => panic!("SDR frame decoded as HDR"),
    }
}

#[test]
fn decode_hdr_assembles_half_bits_little_endian() {
    // One pixel of half-float white: 1.0 encodes as 0x3C00, alpha 1.0 too.
    let one = half::f16::from_f32(1.0).to_bits();
    assert_eq!(one, 0x3C00);
    let mut bytes = Vec::new();
    for _ in 0..4 {
        bytes.extend_from_slice(&one.to_le_bytes());
    }
    let frame = hdr_frame(bytes, 1, 1);
    match frame.decode().unwrap() {
        DecodedImage::Hdr(ps) => {
            assert_eq!(ps.len(), 1);
            assert_eq!((ps[0].r, ps[0].g, ps[0].b, ps[0].a), (0x3C00, 0x3C00, 0x3C00, 0x3C00));
        }
        DecodedImage::Sdr(_) => panic!("HDR frame decoded as SDR"),
    }
}

#[test]
fn decode_hdr_channel_order_is_rgba() {
    let bytes = vec![0x01, 0x00, 0x02, 0x00, 0x03, 0x00, 0x04, 0x00];
    let frame = hdr_frame(bytes, 1, 1);
    match frame.decode().unwrap() {
        DecodedImage::Hdr(ps) => {
            assert_eq!((ps[0].r, ps[0].g, ps[0].b, ps[0].a), (1, 2, 3, 4));
        }
        DecodedImage::Sdr(_) => panic!("HDR frame decoded as SDR"),
    }
}

#[test]
fn decode_rejects_short_buffer() {
    let frame = sdr_frame(vec![0; 7], 2, 1);
    assert!(matches!(frame.decode(), Err(ShotError::InvalidBufferSize)));
}

#[test]
fn decode_rejects_long_buffer() {
    let frame = sdr_frame(vec![0; 9], 2, 1);
    assert!(matches!(frame.decode(), Err(ShotError::InvalidBufferSize)));
    let frame = hdr_frame(vec![0; 17], 1, 2);
    assert!(matches!(frame.decode(), Err(ShotError::InvalidBufferSize)));
}

#[test]
fn decode_rejects_unknown_tag() {
    let frame = CaptureResult {
        mode: "window".to_string(),
        raw_data: vec![0; 4],
        frame_width: 1,
        frame_height: 1,
    };
    assert!(matches!(frame.decode(), Err(ShotError::UnsupportedMode)));
}

#[test]
fn decode_accepts_empty_frame() {
    let frame = sdr_frame(Vec::new(), 0, 0);
    match frame.decode().unwrap() {
        DecodedImage::Sdr(ps) => assert_eq!(ps.len(), 0),
        DecodedImage::Hdr(_) => panic!("SDR frame decoded as HDR"),
    }
}

#[test]
fn mode_tags_map_to_encodings() {
    assert_eq!(CaptureMode::of_tag(&"full_screen".to_string()), Ok(CaptureMode::Hdr16FloatRgba));
    assert_eq!(CaptureMode::of_tag(&"hdr_macos".to_string()), Ok(CaptureMode::Hdr16FloatRgba));
    assert_eq!(CaptureMode::of_tag(&"sdr_macos".to_string()), Ok(CaptureMode::Sdr8Bgra));
    assert_eq!(CaptureMode::of_tag(&"".to_string()), Err(ShotError::UnsupportedMode));
    assert_eq!(CaptureMode::of_tag(&"FULL_SCREEN".to_string()), Err(ShotError::UnsupportedMode));
}

#[test]
fn bytes_per_pixel_by_mode() {
    assert_eq!(CaptureMode::Sdr8Bgra.bytes_per_pixel(), 4);
    assert_eq!(CaptureMode::Hdr16FloatRgba.bytes_per_pixel(), 8);
}
