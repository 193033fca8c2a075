use image::{ImageFormat, Rgba, RgbaImage};
use ram_lavalampe::sheet::{load_sheet_from_bytes, Axis, FRAME_SIZE, LoadError};
use std::io::Cursor;

fn png_bytes(img: &RgbaImage) -> Vec<u8> {
    let mut bytes: Vec<u8> = Vec::new();
    img.write_to(&mut Cursor::new(&mut bytes), ImageFormat::Png)
        .expect("encoding a test image cannot fail");
    bytes
}

fn solid_sheet(frames: u32, color: [u8; 4]) -> RgbaImage {
    let f = FRAME_SIZE as u32;
    let mut img = RgbaImage::new(frames * f, f);
    for p in img.pixels_mut() {
        *p = Rgba(color);
    }
    img
}

#[test]
fn well_formed_sheet_yields_native_frame_count() {
    for k in [1u32, 2, 3] {
        let bytes = png_bytes(&solid_sheet(k, [1, 2, 3, 255]));
        let sheet = load_sheet_from_bytes(&bytes).expect("a well-formed sheet loads");
        assert_eq!(sheet.width, k as usize * FRAME_SIZE);
        assert_eq!(sheet.height, FRAME_SIZE);
        assert_eq!(sheet.native_frame_count(), k as usize);
        assert_eq!(sheet.pixels.len(), sheet.width * sheet.height * 4);
    }
}

#[test]
fn decoded_pixels_are_the_image_pixels() {
    let f = FRAME_SIZE as u32;
    let mut img = solid_sheet(2, [0, 0, 0, 0]);
    img.put_pixel(0, 0, Rgba([11, 22, 33, 44]));
    img.put_pixel(f, 0, Rgba([55, 66, 77, 88]));
    img.put_pixel(2 * f - 1, f - 1, Rgba([99, 98, 97, 96]));
    let bytes = png_bytes(&img);
    let sheet = load_sheet_from_bytes(&bytes).expect("a well-formed sheet loads");
    // The sheet holds decoded pixel data, not the encoded bytes.
    assert_ne!(sheet.pixels, bytes);
    assert_eq!(&sheet.pixels[0..4], &[11, 22, 33, 44]);
    let second_frame_start = FRAME_SIZE * 4;
    assert_eq!(
        &sheet.pixels[second_frame_start..second_frame_start + 4],
        &[55, 66, 77, 88]
    );
    let last = sheet.pixels.len() - 4;
    assert_eq!(&sheet.pixels[last..], &[99, 98, 97, 96]);
}

#[test]
fn source_without_alpha_channel_decodes_opaque() {
    let f = FRAME_SIZE as u32;
    let mut img = image::RgbImage::new(f, f);
    img.put_pixel(0, 0, image::Rgb([10, 20, 30]));
    let mut bytes: Vec<u8> = Vec::new();
    img.write_to(&mut Cursor::new(&mut bytes), ImageFormat::Png)
        .expect("encoding a test image cannot fail");
    let sheet = load_sheet_from_bytes(&bytes).expect("a well-formed sheet loads");
    assert_eq!(&sheet.pixels[0..4], &[10, 20, 30, 255]);
    for px in sheet.pixels.chunks_exact(4) {
        assert_eq!(px[3], 255);
    }
}

#[test]
fn wrong_height_is_a_dimension_mismatch() {
    let f = FRAME_SIZE as u32;
    let img = RgbaImage::new(f, f / 2);
    let bytes = png_bytes(&img);
    let r = load_sheet_from_bytes(&bytes);
    assert!(matches!(
        r,
        Err(LoadError::DimensionMismatch { axis: Axis::Height, value }) if value == FRAME_SIZE / 2
    ));
}

#[test]
fn width_not_a_multiple_of_the_frame_size_is_a_dimension_mismatch() {
    let f = FRAME_SIZE as u32;
    let img = RgbaImage::new(100, f);
    let bytes = png_bytes(&img);
    let r = load_sheet_from_bytes(&bytes);
    assert!(matches!(
        r,
        Err(LoadError::DimensionMismatch { axis: Axis::Width, value: 100 })
    ));
}

#[test]
fn undecodable_bytes_are_a_decode_error() {
    let bytes = vec![0u8, 1, 2, 3, 4, 5, 6, 7];
    assert!(matches!(load_sheet_from_bytes(&bytes), Err(LoadError::DecodeError)));
    let empty: Vec<u8> = Vec::new();
    assert!(matches!(load_sheet_from_bytes(&empty), Err(LoadError::DecodeError)));
}
