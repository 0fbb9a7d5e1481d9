use screen_shot::light::{content_light_level, pack_single_layer};
use screen_shot::pixel::Rgba16;

#[test]
fn uniform_luminance_gives_equal_cll_and_pall() {
    // With the same luminance at every pixel, the maximum equals the mean.
    let b = vec![500u16; 10];
    let l = content_light_level(&b);
    assert_eq!(l.max_cll, 500);
    assert_eq!(l.max_pall, 500);
}

#[test]
fn max_and_rounded_mean() {
    let l = content_light_level(&vec![1, 2]);
    assert_eq!(l.max_cll, 2);
    // Mean 1.5 rounds half away from zero to 2.
    assert_eq!(l.max_pall, 2);

    let l = content_light_level(&vec![1, 2, 3]);
    assert_eq!(l.max_cll, 3);
    assert_eq!(l.max_pall, 2);

    let l = content_light_level(&vec![0, 1]);
    assert_eq!(l.max_cll, 1);
    assert_eq!(l.max_pall, 1);

    let l = content_light_level(&vec![0, 0, 1]);
    assert_eq!(l.max_cll, 1);
    assert_eq!(l.max_pall, 0);
}

#[test]
fn extremes_stay_in_range() {
    let l = content_light_level(&vec![65535; 3]);
    assert_eq!(l.max_cll, 65535);
    assert_eq!(l.max_pall, 65535);
    let l = content_light_level(&vec![0]);
    assert_eq!(l.max_cll, 0);
    assert_eq!(l.max_pall, 0);
}

#[test]
fn average_never_exceeds_maximum() {
    let samples: Vec<u16> = (0..100).map(|i| (i * 37 % 1000) as u16).collect();
    let l = content_light_level(&samples);
    assert!(l.max_pall <= l.max_cll);
    assert_eq!(l.max_cll, *samples.iter().max().unwrap());
    let sum: u64 = samples.iter().map(|&v| v as u64).sum();
    let expect = ((2 * sum + 100) / 200) as u16;
    assert_eq!(l.max_pall, expect);
}

#[test]
fn single_layer_image_carries_buffer_and_light_levels() {
    let pixels = vec![
        Rgba16 { r: 0x1234, g: 0x5678, b: 0x9ABC, a: 0xFFFF },
        Rgba16 { r: 0, g: 1, b: 2, a: 3 },
    ];
    let brightness = vec![100u16, 300u16];
    let img = pack_single_layer(&pixels, &brightness, 2, 1);
    assert_eq!(img.width, 2);
    assert_eq!(img.height, 1);
    assert_eq!(
        img.pixels,
        vec![0x34, 0x12, 0x78, 0x56, 0xBC, 0x9A, 0xFF, 0xFF, 0, 0, 1, 0, 2, 0, 3, 0]
    );
    assert_eq!(img.light.max_cll, 300);
    assert_eq!(img.light.max_pall, 200);
}
