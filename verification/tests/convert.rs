//! End-to-end tests: real decoding, resampling and AVIF encoding.

use avif_bridge::{convert_to_avif, convert_to_avif_resize, ConvertError, Pixel};

/// Encodes a width x height RGBA pixel buffer as a PNG byte stream.
fn png_bytes(width: u32, height: u32, rgba: Vec<u8>) -> Vec<u8> {
    let img = image::RgbaImage::from_raw(width, height, rgba).unwrap();
    let mut out: Vec<u8> = Vec::new();
    img.write_to(&mut std::io::Cursor::new(&mut out), image::ImageFormat::Png)
        .unwrap();
    out
}

/// A small opaque test image with a distinct color per pixel.
fn sample_png(width: u32, height: u32) -> Vec<u8> {
    let mut rgba: Vec<u8> = Vec::new();
    for y in 0..height {
        for x in 0..width {
            rgba.push((10 + 20 * x) as u8);
            rgba.push((10 + 20 * y) as u8);
            rgba.push((100 + x + y) as u8);
            rgba.push(255);
        }
    }
    png_bytes(width, height, rgba)
}

/// Reads the image dimensions out of the first `ispe` (image spatial
/// extents) box of an AVIF byte stream.
fn ispe_dimensions(avif: &[u8]) -> (u32, u32) {
    let pos = avif
        .windows(4)
        .position(|w| w == b"ispe")
        .expect("no ispe box in AVIF output");
    let w = u32::from_be_bytes(avif[pos + 8..pos + 12].try_into().unwrap());
    let h = u32::from_be_bytes(avif[pos + 12..pos + 16].try_into().unwrap());
    (w, h)
}

fn assert_avif_signature(out: &[u8]) {
    assert!(out.len() >= 12);
    assert_eq!(&out[4..8], b"ftyp");
    assert_eq!(&out[8..12], b"avif");
}

#[test]
fn converts_png_and_keeps_dimensions() {
    let png = sample_png(3, 2);
    let out = convert_to_avif(&png, 80, 10).unwrap();
    assert_avif_signature(&out);
    assert_eq!(ispe_dimensions(&out), (3, 2));
    assert_ne!(out, png);
}

#[test]
fn converts_jpeg_input() {
    let img = image::RgbaImage::from_raw(4, 4, vec![200u8; 64]).unwrap();
    let rgb = image::DynamicImage::ImageRgba8(img).to_rgb8();
    let mut jpeg: Vec<u8> = Vec::new();
    rgb.write_to(&mut std::io::Cursor::new(&mut jpeg), image::ImageFormat::Jpeg)
        .unwrap();
    let out = convert_to_avif(&jpeg, 70, 10).unwrap();
    assert_avif_signature(&out);
    assert_eq!(ispe_dimensions(&out), (4, 4));
}

#[test]
fn fill_crop_returns_exact_target() {
    let png = sample_png(8, 4);
    let out = convert_to_avif_resize(&png, 80, 10, 4, 4, true).unwrap();
    assert_avif_signature(&out);
    assert_eq!(ispe_dimensions(&out), (4, 4));
}

#[test]
fn fill_crop_upscales_to_exact_target() {
    let png = sample_png(2, 3);
    let out = convert_to_avif_resize(&png, 60, 10, 5, 4, true).unwrap();
    assert_eq!(ispe_dimensions(&out), (5, 4));
}

#[test]
fn fit_keeps_aspect_within_target() {
    let png = sample_png(8, 4);
    let out = convert_to_avif_resize(&png, 80, 10, 4, 4, false).unwrap();
    assert_avif_signature(&out);
    let (w, h) = ispe_dimensions(&out);
    assert!(w <= 4 && h <= 4);
    assert!(w == 4 || h == 4);
    assert_eq!((w, h), (4, 2));
}

#[test]
fn fit_to_zero_target_yields_unit_dimension() {
    let png = sample_png(4, 4);
    let out = convert_to_avif_resize(&png, 60, 10, 0, 0, false).unwrap();
    assert_eq!(ispe_dimensions(&out), (1, 1));
}

#[test]
fn crop_to_zero_target_reports_no_pixels() {
    let png = sample_png(4, 4);
    let err = convert_to_avif_resize(&png, 60, 10, 0, 4, true).unwrap_err();
    match err {
        ConvertError::Encode(m) => assert_eq!(m, "AVIF Error: image has no pixels"),
        ConvertError::Decode(_) => panic!("expected an encode-stage error"),
    }
}

#[test]
fn rejects_unrecognized_bytes() {
    let garbage: Vec<u8> = vec![0x13, 0x37, 0x00, 0x42, 0x99, 0x01];
    let err = convert_to_avif(&garbage, 80, 10).unwrap_err();
    match err {
        ConvertError::Decode(m) => assert!(!m.is_empty()),
        ConvertError::Encode(_) => panic!("expected a decode-stage error"),
    }
}

#[test]
fn resize_rejects_unrecognized_bytes() {
    let garbage: Vec<u8> = vec![0u8; 16];
    let err = convert_to_avif_resize(&garbage, 80, 10, 4, 4, true).unwrap_err();
    assert!(matches!(err, ConvertError::Decode(_)));
}

#[test]
fn rejects_out_of_range_parameters() {
    let png = sample_png(2, 2);
    let msg = "AVIF Error: quality must be within 1 to 100 and speed within 1 to 10";
    match convert_to_avif(&png, 0, 10).unwrap_err() {
        ConvertError::Encode(m) => assert_eq!(m, msg),
        ConvertError::Decode(_) => panic!("expected an encode-stage error"),
    }
    match convert_to_avif(&png, 50, 11).unwrap_err() {
        ConvertError::Encode(m) => assert_eq!(m, msg),
        ConvertError::Decode(_) => panic!("expected an encode-stage error"),
    }
    assert!(convert_to_avif(&png, 1, 1).is_ok());
    assert!(convert_to_avif(&png, 100, 10).is_ok());
}

#[test]
fn rejects_oversized_resize_target() {
    let png = sample_png(2, 2);
    match convert_to_avif_resize(&png, 50, 10, 70000, 4, false).unwrap_err() {
        ConvertError::Encode(m) => assert_eq!(m, "AVIF Error: target dimensions exceed 65535"),
        ConvertError::Decode(_) => panic!("expected an encode-stage error"),
    }
}

#[test]
fn oversized_target_still_reports_decode_error() {
    let garbage: Vec<u8> = vec![7u8; 12];
    let err = convert_to_avif_resize(&garbage, 50, 10, 70000, 4, true).unwrap_err();
    assert!(matches!(err, ConvertError::Decode(_)));
}

#[test]
fn decode_error_text_agrees_across_operations() {
    let garbage: Vec<u8> = vec![0xAB, 0xCD, 0xEF];
    let m1 = match convert_to_avif(&garbage, 50, 10).unwrap_err() {
        ConvertError::Decode(m) => m,
        ConvertError::Encode(_) => panic!("expected a decode-stage error"),
    };
    let m2 = match convert_to_avif_resize(&garbage, 50, 10, 4, 4, false).unwrap_err() {
        ConvertError::Decode(m) => m,
        ConvertError::Encode(_) => panic!("expected a decode-stage error"),
    };
    let m3 = match convert_to_avif_resize(&garbage, 50, 10, 70000, 70000, true).unwrap_err() {
        ConvertError::Decode(m) => m,
        ConvertError::Encode(_) => panic!("expected a decode-stage error"),
    };
    assert_eq!(m1, m2);
    assert_eq!(m1, m3);
}

#[test]
fn identical_calls_agree() {
    let png = sample_png(5, 3);
    let a = convert_to_avif(&png, 75, 9).unwrap();
    let b = convert_to_avif(&png, 75, 9).unwrap();
    assert_eq!(a, b);
}

#[test]
fn transparent_pixel_encodes() {
    // (0,0) fully transparent, the rest fully opaque
    let rgba = vec![
        0, 0, 0, 0, /* */ 255, 0, 0, 255, /* */ 0, 255, 0, 255, /* */ 0, 0, 255, 255,
    ];
    let png = png_bytes(2, 2, rgba);
    let out = convert_to_avif(&png, 90, 10).unwrap();
    assert_avif_signature(&out);
    assert_eq!(ispe_dimensions(&out), (2, 2));
    // the transparency reached the encoder: an alpha plane was written,
    // which the container marks with an auxC (auxiliary channel) box
    assert!(out.windows(4).any(|w| w == b"auxC"));
}

#[test]
fn opaque_image_carries_no_alpha_plane() {
    let png = sample_png(2, 2);
    let out = convert_to_avif(&png, 90, 10).unwrap();
    assert!(!out.windows(4).any(|w| w == b"auxC"));
}

#[test]
fn flattens_rgba_bytes_in_order() {
    let raw: Vec<u8> = vec![1, 2, 3, 4, 5, 6, 7, 8];
    let pixels = avif_bridge::pixel::pixels_from_raw(&raw);
    assert_eq!(pixels.len(), 2);
    assert_eq!(pixels[0], Pixel { r: 1, g: 2, b: 3, a: 4 });
    assert_eq!(pixels[1], Pixel { r: 5, g: 6, b: 7, a: 8 });
}
