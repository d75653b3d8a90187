use std::io::Cursor;
use tinify_batch::transform::{convert_image, pad_geometry, TransformError};

fn png_bytes(w: u32, h: u32) -> Vec<u8> {
    let img = image::DynamicImage::new_rgba8(w, h);
    let mut cursor = Cursor::new(Vec::new());
    img.write_to(&mut cursor, image::ImageFormat::Png).unwrap();
    cursor.into_inner()
}

#[test]
fn geometry_tall_source() {
    let g = pad_geometry(3, 5);
    assert_eq!(g.edge, 5);
    assert_eq!(g.dx, 1);
    assert_eq!(g.dy, 0);
}

#[test]
fn geometry_wide_source() {
    let g = pad_geometry(5, 3);
    assert_eq!(g.edge, 5);
    assert_eq!(g.dx, 0);
    assert_eq!(g.dy, 1);
}

#[test]
fn geometry_square_source() {
    let g = pad_geometry(4, 4);
    assert_eq!(g.edge, 4);
    assert_eq!(g.dx, 0);
    assert_eq!(g.dy, 0);
}

#[test]
fn geometry_odd_difference_floors() {
    let g = pad_geometry(2, 5);
    assert_eq!(g.edge, 5);
    assert_eq!(g.dx, 1);
    assert_eq!(g.dy, 0);
}

#[test]
fn padding_centers_the_source() {
    // A 1x3 opaque white column padded onto a 3x3 canvas sits in the middle
    // column; the flanking columns stay transparent. Resizing 3x3 to 3x3
    // leaves the layout in place.
    let mut img = image::RgbaImage::new(1, 3);
    for p in img.pixels_mut() {
        *p = image::Rgba([255, 255, 255, 255]);
    }
    let mut cursor = std::io::Cursor::new(Vec::new());
    image::DynamicImage::ImageRgba8(img)
        .write_to(&mut cursor, image::ImageFormat::Png)
        .unwrap();
    let out = convert_image(&cursor.into_inner(), 3).unwrap();
    let back = image::load_from_memory(&out).unwrap().to_rgba8();
    assert!(back.get_pixel(1, 1)[3] > 200, "source column should be opaque");
    assert!(back.get_pixel(1, 1)[0] > 200, "source column should be white");
    assert!(back.get_pixel(0, 1)[3] < 16, "left padding should be transparent");
    assert!(back.get_pixel(2, 1)[3] < 16, "right padding should be transparent");
}

#[test]
fn undecodable_bytes_give_decode_error() {
    let garbage = vec![1u8, 2, 3, 4, 5];
    let r = convert_image(&garbage, 200);
    assert!(matches!(r, Err(TransformError::Decode(_))));
}

#[test]
fn zero_target_size_is_rejected() {
    let bytes = png_bytes(2, 3);
    let r = convert_image(&bytes, 0);
    assert!(matches!(r, Err(TransformError::ZeroTargetSize)));
}

#[test]
fn oversized_target_is_rejected() {
    // A target of three billion pixels a side would need a resize buffer
    // past usize on any platform: rejected before anything is allocated.
    let bytes = png_bytes(2, 3);
    let r = convert_image(&bytes, 3_000_000_000);
    assert!(matches!(r, Err(TransformError::TargetTooLarge)));
}

#[test]
fn transform_produces_square_png_of_requested_size() {
    let bytes = png_bytes(2, 3);
    let out = convert_image(&bytes, 4).unwrap();
    let back = image::load_from_memory(&out).unwrap();
    assert_eq!(back.width(), 4);
    assert_eq!(back.height(), 4);
}

#[test]
fn transform_of_wide_source_is_square() {
    let bytes = png_bytes(7, 2);
    let out = convert_image(&bytes, 5).unwrap();
    let back = image::load_from_memory(&out).unwrap();
    assert_eq!(back.width(), 5);
    assert_eq!(back.height(), 5);
}
