//! The compositing blend, pinned with exact expected values.

use libass::blend_channel;
use libass::composite_layer;
use libass::decode_color;
use libass::ImageKind;
use libass::Layer;

#[test]
fn blend_channel_extremes() {
    assert_eq!(blend_channel(255, 10, 99), 10);
    assert_eq!(blend_channel(0, 10, 99), 99);
}

#[test]
fn blend_channel_mid_coverage_exact() {
    // (128 * 200 + 127 * 100) / 255 == 38300 / 255 == 150
    assert_eq!(blend_channel(128, 200, 100), 150);
}

#[test]
fn decode_color_unpacks_channels() {
    let (r, g, b, a) = decode_color(0x11223344);
    assert_eq!(r, 0x11);
    assert_eq!(g, 0x22);
    assert_eq!(b, 0x33);
    assert_eq!(a, 255 - 0x44);
}

fn one_pixel_layer(color: u32, coverage: u8) -> Layer {
    Layer {
        width: 1,
        height: 1,
        bitmap: vec![coverage],
        color,
        x: 0,
        y: 0,
        kind: ImageKind::Character,
    }
}

#[test]
fn opaque_red_layer_replaces_black_pixel() {
    // Color 0xFF000000: red 255, green 0, blue 0, alpha byte 0, so the
    // effective alpha is 255.  Full coverage over an opaque black pixel
    // yields opaque red exactly.
    let l = one_pixel_layer(0xFF000000, 255);
    let mut frame = vec![0u8, 0, 0, 255];
    composite_layer(&l, &mut frame, 1, 1);
    assert_eq!(frame, vec![255, 0, 0, 255]);
}

#[test]
fn full_coverage_zero_alpha_byte_yields_foreground_exactly() {
    // Color 0x00FF0000 has alpha byte 0, so the computed alpha is 255;
    // with coverage 255 the output is the foreground channel values
    // exactly, whatever the background held.
    let l = one_pixel_layer(0x00FF0000, 255);
    let (r, g, b, a) = decode_color(0x00FF0000);
    let mut frame = vec![10u8, 20, 30, 255];
    composite_layer(&l, &mut frame, 1, 1);
    assert_eq!(frame, vec![r, g, b, a]);
    assert_eq!(frame, vec![0, 255, 0, 255]);
}

#[test]
fn half_coverage_blends_each_channel() {
    let l = one_pixel_layer(0xFF000000, 128);
    let mut frame = vec![0u8, 0, 0, 255];
    composite_layer(&l, &mut frame, 1, 1);
    // red: (128 * 255 + 127 * 0) / 255 == 128
    // alpha: (128 * 255 + 127 * 255) / 255 == 255
    assert_eq!(frame, vec![128, 0, 0, 255]);
}

#[test]
fn pixels_outside_layer_unchanged() {
    let l = Layer {
        width: 1,
        height: 1,
        bitmap: vec![255],
        color: 0xFF000000,
        x: 1,
        y: 0,
        kind: ImageKind::Character,
    };
    let mut frame = vec![
        1u8, 2, 3, 4, // pixel (0, 0), outside
        0, 0, 0, 255, // pixel (1, 0), covered
        5, 6, 7, 8, // pixel (0, 1), outside
        9, 10, 11, 12, // pixel (1, 1), outside
    ];
    composite_layer(&l, &mut frame, 2, 2);
    assert_eq!(
        frame,
        vec![1, 2, 3, 4, 255, 0, 0, 255, 5, 6, 7, 8, 9, 10, 11, 12]
    );
}

#[test]
fn zero_coverage_leaves_background() {
    let l = one_pixel_layer(0xFF000000, 0);
    let mut frame = vec![40u8, 50, 60, 70];
    composite_layer(&l, &mut frame, 1, 1);
    assert_eq!(frame, vec![40, 50, 60, 70]);
}
