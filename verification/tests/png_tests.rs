use gbar::png::{decode_png, rgba_to_bgra, try_decode_png};
use std::io::Cursor;

fn encode_png(width: u32, height: u32, rgba: Vec<u8>) -> Vec<u8> {
    let image = image::RgbaImage::from_raw(width, height, rgba).unwrap();
    let mut bytes = Cursor::new(Vec::new());
    image.write_to(&mut bytes, image::ImageFormat::Png).unwrap();
    bytes.into_inner()
}

#[test]
fn swap_exchanges_red_and_blue() {
    let mut pixels = vec![1, 2, 3, 4, 5, 6, 7, 8];
    rgba_to_bgra(&mut pixels);
    assert_eq!(pixels, vec![3, 2, 1, 4, 7, 6, 5, 8]);
}

#[test]
fn swap_leaves_an_incomplete_pixel() {
    let mut pixels = vec![1, 2, 3, 4, 5, 6];
    rgba_to_bgra(&mut pixels);
    assert_eq!(pixels, vec![3, 2, 1, 4, 5, 6]);
    let mut empty: Vec<u8> = Vec::new();
    rgba_to_bgra(&mut empty);
    assert!(empty.is_empty());
}

#[test]
fn swap_twice_restores() {
    let original = vec![10, 20, 30, 40, 50, 60, 70, 80, 90];
    let mut pixels = original.clone();
    rgba_to_bgra(&mut pixels);
    rgba_to_bgra(&mut pixels);
    assert_eq!(pixels, original);
}

#[test]
fn decodes_png_into_bgra() {
    let png = encode_png(2, 1, vec![255, 0, 10, 255, 1, 2, 3, 128]);
    let image = decode_png(&png);
    assert_eq!(image.width, 2);
    assert_eq!(image.height, 1);
    assert_eq!(image.pixels, vec![10, 0, 255, 255, 3, 2, 1, 128]);
}

#[test]
fn rejects_bytes_that_are_no_png() {
    assert!(try_decode_png(b"not a png").is_none());
    assert!(try_decode_png(&[]).is_none());
}

#[test]
fn try_decode_matches_decode_on_a_png() {
    let png = encode_png(1, 1, vec![9, 8, 7, 6]);
    let image = try_decode_png(&png).unwrap();
    assert_eq!((image.width, image.height), (1, 1));
    assert_eq!(image.pixels, decode_png(&png).pixels);
    assert_eq!(image.pixels, vec![7, 8, 9, 6]);
}
