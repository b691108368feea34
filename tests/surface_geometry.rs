use vglite_rs::surface::DIM_MAX;
use vglite_rs::{Color, Error, Format, Rectangle, Surface};

#[test]
fn stride_follows_bytes_per_pixel() {
    assert_eq!(Surface::new(640, 480, Format::RGBA8888).unwrap().stride(), 2560);
    assert_eq!(Surface::new(640, 480, Format::BGRA8888).unwrap().stride(), 2560);
    assert_eq!(Surface::new(640, 480, Format::RGB565).unwrap().stride(), 1280);
    assert_eq!(Surface::new(641, 3, Format::BGR565).unwrap().stride(), 1282);
    let s = Surface::new(7, 9, Format::BGR565).unwrap();
    assert_eq!((s.width(), s.height(), s.format()), (7, 9, Format::BGR565));
    assert_eq!(s.byte_len(), 14 * 9);
}

#[test]
fn empty_or_oversized_surfaces_are_rejected() {
    assert_eq!(Surface::new(0, 480, Format::RGBA8888), Err(Error::InvalidArgument));
    assert_eq!(Surface::new(640, 0, Format::RGBA8888), Err(Error::InvalidArgument));
    assert_eq!(Surface::new(640, DIM_MAX + 1, Format::RGB565), Err(Error::InvalidArgument));
    assert_eq!(Surface::new(0x2000_0000, 1, Format::RGBA8888), Err(Error::InvalidArgument));
    assert!(Surface::new(0x1fff_ffff, 1, Format::RGBA8888).is_ok());
    assert!(Surface::new(0x3fff_ffff, 1, Format::RGB565).is_ok());
    assert!(Surface::new(1, DIM_MAX, Format::RGB565).is_ok());
}

#[test]
fn format_codes_and_sizes() {
    assert_eq!(Format::RGBA8888.code(), 0);
    assert_eq!(Format::BGRA8888.code(), 1);
    assert_eq!(Format::RGB565.code(), 4);
    assert_eq!(Format::BGR565.code(), 5);
    assert_eq!(Format::RGBA8888.bytes_per_pixel(), 4);
    assert_eq!(Format::BGR565.bytes_per_pixel(), 2);
}

#[test]
fn color_packs_as_argb() {
    assert_eq!(Color { r: 0x12, g: 0x34, b: 0x56, a: 0x78 }.packed(), 0x7812_3456);
    assert_eq!(Color { r: 255, g: 255, b: 255, a: 255 }.packed(), 0xFFFF_FFFF);
    assert_eq!(Color { r: 0, g: 0, b: 0, a: 0 }.packed(), 0);
}

#[test]
fn pixel_offsets_inside_only() {
    let s = Surface::new(10, 4, Format::RGB565).unwrap();
    assert_eq!(s.pixel_offset(9, 3), Some(3 * 20 + 18));
    assert_eq!(s.pixel_offset(10, 0), None);
    assert_eq!(s.pixel_offset(0, 4), None);
}

#[test]
fn rectangles_must_lie_inside() {
    let s = Surface::new(100, 50, Format::RGBA8888).unwrap();
    let ok = Rectangle { x: 10, y: 10, width: 90, height: 40 };
    assert_eq!(s.check_rect(ok), Ok(ok));
    let wide = Rectangle { x: 11, y: 10, width: 90, height: 40 };
    assert_eq!(s.check_rect(wide), Err(Error::InvalidArgument));
    let tall = Rectangle { x: 0, y: 0, width: 1, height: 51 };
    assert_eq!(s.check_rect(tall), Err(Error::InvalidArgument));
    let huge = Rectangle { x: i32::MAX, y: 0, width: i32::MAX, height: 0 };
    assert_eq!(s.check_rect(huge), Err(Error::InvalidArgument));
    let empty = Rectangle { x: 100, y: 50, width: 0, height: 0 };
    assert_eq!(s.check_rect(empty), Ok(empty));
}
