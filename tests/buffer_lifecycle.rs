use vglite_rs::error::{STATUS_OUT_OF_MEMORY, STATUS_SUCCESS};
use vglite_rs::{Buffer, Color, Error, Format, Provenance, Rectangle, Release, Surface};

/// Stand-in for the native memory calls: counts what a buffer's release asks for.
#[derive(Default)]
struct CountingEngine {
    frees: u32,
    unmaps: u32,
}

impl CountingEngine {
    fn destroy(&mut self, buffer: &mut Buffer) {
        match buffer.release() {
            Release::Free => self.frees += 1,
            Release::Unmap => self.unmaps += 1,
            Release::Nothing => {}
        }
    }
}

const FORMATS: [Format; 4] = [Format::RGBA8888, Format::BGRA8888, Format::RGB565, Format::BGR565];

#[test]
fn allocation_is_freed_exactly_once() {
    for format in FORMATS {
        for (w, h) in [(1, 1), (640, 480), (3, 7), (1920, 1080)] {
            let mut engine = CountingEngine::default();
            let surface = Surface::new(w, h, format).unwrap();
            let mut buffer = Buffer::allocated(surface, STATUS_SUCCESS).unwrap();
            assert_eq!(buffer.provenance(), Provenance::Allocated);
            engine.destroy(&mut buffer);
            engine.destroy(&mut buffer);
            assert_eq!(engine.frees, 1);
            assert_eq!(engine.unmaps, 0);
        }
    }
}

#[test]
fn failed_allocation_frees_nothing() {
    let surface = Surface::new(640, 480, Format::RGBA8888).unwrap();
    let r = Buffer::allocated(surface, STATUS_OUT_OF_MEMORY);
    assert!(matches!(r, Err(Error::OutOfMemory)));
}

#[test]
fn mapping_is_unmapped_never_freed() {
    let mut engine = CountingEngine::default();
    let surface = Surface::new(800, 600, Format::BGRA8888).unwrap();
    let mut buffer = Buffer::mapped(surface, STATUS_SUCCESS).unwrap();
    assert_eq!(buffer.provenance(), Provenance::Mapped);
    engine.destroy(&mut buffer);
    engine.destroy(&mut buffer);
    assert_eq!(engine.unmaps, 1);
    assert_eq!(engine.frees, 0);
    assert_eq!(buffer.provenance(), Provenance::Unowned);
    assert_eq!(buffer.surface(), surface);
}

#[test]
fn unowned_buffer_releases_nothing() {
    let surface = Surface::new(2, 2, Format::RGB565).unwrap();
    let mut buffer = Buffer::acquired(surface, Provenance::Unowned, STATUS_SUCCESS).unwrap();
    assert_eq!(buffer.release(), Release::Nothing);
    assert_eq!(buffer.release(), Release::Nothing);
}

#[test]
fn failed_mapping_reports_status() {
    let surface = Surface::new(16, 16, Format::RGB565).unwrap();
    assert!(matches!(Buffer::mapped(surface, 9), Err(Error::NotAligned)));
}

#[test]
fn clear_whole_and_sub_rectangle() {
    let surface = Surface::new(640, 480, Format::RGBA8888).unwrap();
    let buffer = Buffer::allocated(surface, STATUS_SUCCESS).unwrap();
    let black = Color { r: 0, g: 0, b: 0, a: 255 };
    let red = Color { r: 255, g: 0, b: 0, a: 255 };
    assert_eq!(buffer.clear_request(None, black), Ok((None, 0xFF00_0000)));
    let rect = Rectangle { x: 300, y: 370, width: 300, height: 100 };
    assert_eq!(buffer.clear_request(Some(rect), red), Ok((Some(rect), 0xFFFF_0000)));
    // the first pixel of the rectangle, and one outside it
    assert_eq!(surface.pixel_offset(300, 370), Some(370 * 2560 + 300 * 4));
    assert_eq!(surface.pixel_offset(0, 0), Some(0));
    assert_eq!(surface.byte_len(), 640 * 480 * 4);
}

#[test]
fn clear_rejects_rectangle_outside() {
    let surface = Surface::new(640, 480, Format::RGBA8888).unwrap();
    let buffer = Buffer::allocated(surface, STATUS_SUCCESS).unwrap();
    let c = Color { r: 1, g: 2, b: 3, a: 4 };
    let over = Rectangle { x: 400, y: 0, width: 300, height: 10 };
    assert_eq!(buffer.clear_request(Some(over), c), Err(Error::InvalidArgument));
    let negative = Rectangle { x: -1, y: 0, width: 1, height: 1 };
    assert_eq!(buffer.clear_request(Some(negative), c), Err(Error::InvalidArgument));
    let edge = Rectangle { x: 0, y: 0, width: 640, height: 480 };
    assert_eq!(buffer.clear_request(Some(edge), c), Ok((Some(edge), 0x0401_0203)));
}
