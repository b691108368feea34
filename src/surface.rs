//! Pixel-surface geometry: formats, row stride, colors and rectangles.
use vstd::prelude::*;

use crate::error::Error;

verus! {

/// Largest width, height or row stride the engine's descriptor can hold.
pub const DIM_MAX: u32 = 0x7fff_ffff;

/// Pixel formats a surface can have.
#[derive(Debug, Clone, Copy, PartialEq, Eq, Structural)]
pub enum Format {
    RGBA8888,
    BGRA8888,
    RGB565,
    BGR565,
}

impl Format {
    pub open spec fn spec_bytes_per_pixel(self) -> u32 {
        match self {
            Format::RGBA8888 => 4,
            Format::BGRA8888 => 4,
            Format::RGB565 => 2,
            Format::BGR565 => 2,
        }
    }

    pub open spec fn spec_code(self) -> u32 {
        match self {
            Format::RGBA8888 => 0,
            Format::BGRA8888 => 1,
            Format::RGB565 => 4,
            Format::BGR565 => 5,
        }
    }

    /// Bytes one pixel takes.
    #[verifier::when_used_as_spec(spec_bytes_per_pixel)]
    pub fn bytes_per_pixel(self) -> (r: u32)
        ensures
            r == self.spec_bytes_per_pixel(),
    {
        match self {
            Format::RGBA8888 => 4,
            Format::BGRA8888 => 4,
            Format::RGB565 => 2,
            Format::BGR565 => 2,
        }
    }

    /// The engine's identifier for this pixel format.
    #[verifier::when_used_as_spec(spec_code)]
    pub fn code(self) -> (r: u32)
        ensures
            r == self.spec_code(),
    {
        match self {
            Format::RGBA8888 => 0,
            Format::BGRA8888 => 1,
            Format::RGB565 => 4,
            Format::BGR565 => 5,
        }
    }
}

/// Whether a surface of this size and format can be described to the engine:
/// both sides positive and the row stride within the descriptor's range.
pub open spec fn valid_size(width: u32, height: u32, format: Format) -> bool {
    &&& 0 < width
    &&& 0 < height <= DIM_MAX
    &&& width * format.spec_bytes_per_pixel() <= DIM_MAX
}

/// The geometry of a pixel surface: its size, format and row stride.
#[derive(Debug, Clone, Copy, PartialEq, Eq, Structural)]
pub struct Surface {
    width: u32,
    height: u32,
    stride: u32,
    format: Format,
}

impl Surface {
    pub closed spec fn spec_width(self) -> u32 {
        self.width
    }

    pub closed spec fn spec_height(self) -> u32 {
        self.height
    }

    pub closed spec fn spec_stride(self) -> u32 {
        self.stride
    }

    pub closed spec fn spec_format(self) -> Format {
        self.format
    }

    /// Every surface has a valid size and a stride of one row of pixels.
    #[verifier::type_invariant]
    pub closed spec fn wf(self) -> bool {
        &&& valid_size(self.width, self.height, self.format)
        &&& self.stride == self.width * self.format.spec_bytes_per_pixel()
    }

    /// Describes a `width` x `height` surface in `format`, with rows of
    /// `width * bytes_per_pixel` bytes. Fails with `InvalidArgument` on an
    /// empty side or a size the engine cannot describe.
    pub fn new(width: u32, height: u32, format: Format) -> (r: Result<Surface, Error>)
        ensures
            r is Err <==> !valid_size(width, height, format),
            r is Err ==> r == Err::<Surface, Error>(Error::InvalidArgument),
            r matches Ok(s) ==> {
                &&& s.wf()
                &&& s.width() == width
                &&& s.height() == height
                &&& s.format() == format
                &&& s.stride() == width * format.bytes_per_pixel()
            },
    {
        let bpp = format.bytes_per_pixel();
        if width == 0 || height == 0 || height > DIM_MAX || width > DIM_MAX / bpp {
            return Err(Error::InvalidArgument);
        }
        proof {
            assert(width * bpp <= (DIM_MAX / bpp) * bpp) by (nonlinear_arith)
                requires
                    width <= DIM_MAX / bpp,
                    bpp > 0,
            ;
        }
        Ok(Surface { width, height, stride: width * bpp, format })
    }

    #[verifier::when_used_as_spec(spec_width)]
    pub fn width(self) -> (r: u32)
        ensures
            r == self.spec_width(),
    {
        self.width
    }

    #[verifier::when_used_as_spec(spec_height)]
    pub fn height(self) -> (r: u32)
        ensures
            r == self.spec_height(),
    {
        self.height
    }

    /// Bytes from the start of one row to the next.
    #[verifier::when_used_as_spec(spec_stride)]
    pub fn stride(self) -> (r: u32)
        ensures
            r == self.spec_stride(),
    {
        self.stride
    }

    #[verifier::when_used_as_spec(spec_format)]
    pub fn format(self) -> (r: Format)
        ensures
            r == self.spec_format(),
    {
        self.format
    }

    /// Bytes of pixel memory the surface spans: `stride * height`.
    pub fn byte_len(&self) -> (r: u64)
        ensures
            r == self.stride() * self.height(),
    {
        proof {
            use_type_invariant(self);
            assert(self.stride * self.height <= DIM_MAX * DIM_MAX) by (nonlinear_arith)
                requires
                    self.stride <= DIM_MAX,
                    self.height <= DIM_MAX,
            ;
        }
        self.stride as u64 * self.height as u64
    }

    /// Byte offset of pixel `(x, y)` in the surface's memory, or `None`
    /// when the pixel lies outside.
    pub fn pixel_offset(&self, x: u32, y: u32) -> (r: Option<u64>)
        ensures
            r is Some <==> x < self.width() && y < self.height(),
            r matches Some(o) ==> o == y * self.stride() + x * self.format().bytes_per_pixel(),
    {
        if x >= self.width || y >= self.height {
            return None;
        }
        let bpp = self.format.bytes_per_pixel();
        proof {
            use_type_invariant(self);
            assert(y * self.stride <= DIM_MAX * DIM_MAX) by (nonlinear_arith)
                requires
                    y <= DIM_MAX,
                    self.stride <= DIM_MAX,
            ;
            assert(x * bpp <= self.width * bpp) by (nonlinear_arith)
                requires
                    x < self.width,
            ;
        }
        Some(y as u64 * self.stride as u64 + x as u64 * bpp as u64)
    }

    /// Accepts a rectangle that lies wholly inside the surface; anything
    /// else is an `InvalidArgument`.
    pub fn check_rect(&self, rect: Rectangle) -> (r: Result<Rectangle, Error>)
        ensures
            r is Ok <==> rect.inside(self.width(), self.height()),
            r matches Ok(q) ==> q == rect,
            r is Err ==> r == Err::<Rectangle, Error>(Error::InvalidArgument),
    {
        if rect.x < 0 || rect.y < 0 || rect.width < 0 || rect.height < 0 {
            return Err(Error::InvalidArgument);
        }
        if rect.x as i64 + rect.width as i64 > self.width as i64 || rect.y as i64
            + rect.height as i64 > self.height as i64 {
            return Err(Error::InvalidArgument);
        }
        Ok(rect)
    }
}

/// A color given by its four 8-bit channels.
#[derive(Debug, Clone, Copy, PartialEq, Eq, Structural)]
pub struct Color {
    pub r: u8,
    pub g: u8,
    pub b: u8,
    pub a: u8,
}

impl Color {
    pub open spec fn spec_packed(self) -> u32 {
        (self.a * 0x100_0000 + self.r * 0x1_0000 + self.g * 0x100 + self.b) as u32
    }

    /// The color as the engine takes it: one word `0xAARRGGBB`.
    #[verifier::when_used_as_spec(spec_packed)]
    pub fn packed(self) -> (r: u32)
        ensures
            r == self.a * 0x100_0000 + self.r * 0x1_0000 + self.g * 0x100 + self.b,
    {
        self.a as u32 * 0x100_0000 + self.r as u32 * 0x1_0000 + self.g as u32 * 0x100
            + self.b as u32
    }
}

/// An axis-aligned rectangle of pixels, as the engine describes it.
#[derive(Debug, Clone, Copy, PartialEq, Eq, Structural)]
pub struct Rectangle {
    pub x: i32,
    pub y: i32,
    pub width: i32,
    pub height: i32,
}

impl Rectangle {
    /// Whether the rectangle lies wholly inside a `width` x `height` surface.
    pub open spec fn inside(self, width: u32, height: u32) -> bool {
        &&& 0 <= self.x
        &&& 0 <= self.y
        &&& 0 <= self.width
        &&& 0 <= self.height
        &&& self.x + self.width <= width
        &&& self.y + self.height <= height
    }
}

} // verus!
