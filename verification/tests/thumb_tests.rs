use image::GenericImageView;
use object_thumbnail::thumb::{get_thumbnail, png_dimensions, TransformError, MAX_PIXELS};

/// A valid square PNG, `edge` pixels a side, built with a real encoder.
fn square_png(edge: u32) -> Vec<u8> {
    let img = image::RgbaImage::from_pixel(edge, edge, image::Rgba([10, 120, 200, 255]));
    let mut buf = std::io::Cursor::new(Vec::new());
    image::DynamicImage::ImageRgba8(img)
        .write_to(&mut buf, image::ImageFormat::Png)
        .unwrap();
    buf.into_inner()
}

/// Bytes with a well-formed PNG signature and header chunk declaring the
/// given dimensions, and nothing behind them.
fn bare_png_header(w: u32, h: u32) -> Vec<u8> {
    let mut v = vec![137u8, 80, 78, 71, 13, 10, 26, 10];
    v.extend_from_slice(&[0, 0, 0, 13]);
    v.extend_from_slice(&[73, 72, 68, 82]);
    v.extend_from_slice(&w.to_be_bytes());
    v.extend_from_slice(&h.to_be_bytes());
    v.extend_from_slice(&[8, 6, 0, 0, 0]);
    v
}

#[test]
fn dimensions_of_a_real_png() {
    let png = square_png(48);
    assert_eq!(png_dimensions(&png), Some((48, 48)));
}

#[test]
fn dimensions_of_a_crafted_header() {
    let png = bare_png_header(640, 480);
    assert_eq!(png_dimensions(&png), Some((640, 480)));
}

#[test]
fn dimensions_reject_other_bytes() {
    assert_eq!(png_dimensions(&vec![1, 2, 3]), None);
    assert_eq!(png_dimensions(&Vec::new()), None);
    let mut almost = bare_png_header(10, 10);
    almost[0] = 0;
    assert_eq!(png_dimensions(&almost), None);
}

#[test]
fn thumbnail_of_a_square_png_has_the_requested_edge() {
    let png = square_png(256);
    let out = get_thumbnail(&png, 128).unwrap();
    let decoded = image::load_from_memory(&out).unwrap();
    assert_eq!(decoded.dimensions(), (128, 128));
}

#[test]
fn thumbnail_is_deterministic() {
    let png = square_png(64);
    let a = get_thumbnail(&png, 16).unwrap();
    let b = get_thumbnail(&png, 16).unwrap();
    assert_eq!(a, b);
}

#[test]
fn thumbnail_is_a_single_new_encoding() {
    let png = square_png(64);
    let out = get_thumbnail(&png, 16).unwrap();
    assert_ne!(out, png);
    let decoded = image::load_from_memory(&out).unwrap();
    assert_eq!(decoded.dimensions(), (16, 16));
}

#[test]
fn thumbnail_rejects_non_png_bytes() {
    let r = get_thumbnail(&vec![0u8; 100], 128);
    assert!(matches!(r, Err(TransformError::NotPng)));
}

#[test]
fn thumbnail_rejects_an_oversized_raster() {
    let png = bare_png_header(20_000, 20_000);
    assert!(20_000u64 * 20_000u64 > MAX_PIXELS);
    let r = get_thumbnail(&png, 128);
    assert!(matches!(r, Err(TransformError::TooLarge)));
}

#[test]
fn thumbnail_reports_a_codec_failure() {
    let png = bare_png_header(10, 10);
    let r = get_thumbnail(&png, 128);
    assert!(matches!(r, Err(TransformError::Codec)));
}
