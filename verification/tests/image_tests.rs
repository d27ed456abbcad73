//! Packing of stride-padded native bitmaps and the layer constructor.

use libass::pack_bitmap;
use libass::ImageKind;
use libass::Layer;

#[test]
fn pack_bitmap_respects_stride() {
    let src = [1u8, 2, 9, 9, 3, 4, 9, 9];
    let out = pack_bitmap(&src, 2, 2, 4);
    assert_eq!(out, vec![1, 2, 3, 4]);
}

#[test]
fn pack_bitmap_contiguous_rows() {
    let src = [5u8, 6, 7, 8, 9, 10];
    let out = pack_bitmap(&src, 3, 2, 3);
    assert_eq!(out, vec![5, 6, 7, 8, 9, 10]);
}

#[test]
fn pack_bitmap_empty() {
    let src: [u8; 0] = [];
    let out = pack_bitmap(&src, 0, 0, 0);
    assert_eq!(out.len(), 0);
}

#[test]
fn layer_from_native_packs_and_decodes() {
    let storage = [10u8, 20, 0, 30, 40, 0];
    let l = Layer::from_native(2, 2, 3, &storage, 0x00FF00FF, 7, 8, 1).unwrap();
    assert_eq!(l.width, 2);
    assert_eq!(l.height, 2);
    assert_eq!(l.bitmap, vec![10, 20, 30, 40]);
    assert_eq!(l.color, 0x00FF00FF);
    assert_eq!(l.x, 7);
    assert_eq!(l.y, 8);
    assert_eq!(l.kind, ImageKind::Outline);
}

#[test]
fn layer_from_native_last_row_without_padding() {
    // The engine allocates no padding after the final row: storage of
    // exactly (height - 1) * stride + width bytes is accepted.
    let storage = [10u8, 20, 0, 30, 40];
    let l = Layer::from_native(2, 2, 3, &storage, 0, 0, 0, 0).unwrap();
    assert_eq!(l.bitmap, vec![10, 20, 30, 40]);
    let short = [10u8, 20, 0, 30];
    assert!(Layer::from_native(2, 2, 3, &short, 0, 0, 0, 0).is_none());
}

#[test]
fn layer_from_native_rejects_unknown_kind() {
    let storage = [0u8; 6];
    assert!(Layer::from_native(2, 2, 3, &storage, 0, 0, 0, 3).is_none());
}

#[test]
fn layer_from_native_rejects_bad_geometry() {
    let storage = [0u8; 6];
    assert!(Layer::from_native(4, 2, 3, &storage, 0, 0, 0, 0).is_none());
    assert!(Layer::from_native(-1, 2, 3, &storage, 0, 0, 0, 0).is_none());
    assert!(Layer::from_native(2, -2, 3, &storage, 0, 0, 0, 0).is_none());
    assert!(Layer::from_native(2, 4, 3, &storage, 0, 0, 0, 0).is_none());
}
