//! Rendered glyph bitmaps.
//!
//! A bitmap is a row-major pixel buffer: `rows` rows of `pitch` bytes each
//! (the pitch's absolute value; its sign records whether the rows flow down
//! or up), with `width` pixels per row in the format named by the pixel-mode
//! byte.

use vstd::prelude::*;

use crate::error::{Error, FtResult};

verus! {

/// Pixel-mode byte: reserved.
pub const PIXEL_MODE_NONE: u8 = 0;
/// Pixel-mode byte: 1 bit per pixel, most significant bit first.
pub const PIXEL_MODE_MONO: u8 = 1;
/// Pixel-mode byte: 8-bit gray levels.
pub const PIXEL_MODE_GRAY: u8 = 2;
/// Pixel-mode byte: 2-bit gray levels.
pub const PIXEL_MODE_GRAY2: u8 = 3;
/// Pixel-mode byte: 4-bit gray levels.
pub const PIXEL_MODE_GRAY4: u8 = 4;
/// Pixel-mode byte: horizontally decimated LCD coverage.
pub const PIXEL_MODE_LCD: u8 = 5;
/// Pixel-mode byte: vertically decimated LCD coverage.
pub const PIXEL_MODE_LCD_V: u8 = 6;
/// Pixel-mode byte: premultiplied BGRA color.
pub const PIXEL_MODE_BGRA: u8 = 7;

/// How the pixel bits of a bitmap are laid out.
#[derive(Clone, Copy, PartialEq, Eq, Structural, Debug)]
pub enum PixelMode {
    /// This value is reserved by the format.
    Reserved,
    /// A monochrome bitmap, 1 bit per pixel, stored most-significant bit
    /// first: the left-most pixel of a byte has value 128.
    Mono,
    /// An 8-bit bitmap, generally used for anti-aliased glyph images.
    Gray,
    /// A 2-bit-per-pixel bitmap of embedded anti-aliased glyph images.
    Gray2,
    /// A 4-bit-per-pixel bitmap of embedded anti-aliased glyph images.
    Gray4,
    /// An 8-bit bitmap of RGB/BGR-decimated glyph images for LCD displays;
    /// three times wider than the glyph image.
    Lcd,
    /// An 8-bit bitmap of RGB/BGR-decimated glyph images for rotated LCD
    /// displays; three times taller than the glyph image.
    LcdV,
    /// Four 8-bit channels per pixel in BGRA order, premultiplied, sRGB.
    Bgra,
}

/// The pixel-mode value that a mode byte denotes, or the error raised for a
/// byte outside the published set.
pub open spec fn pixel_mode_of_code(c: u8) -> FtResult<PixelMode> {
    if c == PIXEL_MODE_NONE {
        Ok(PixelMode::Reserved)
    } else if c == PIXEL_MODE_MONO {
        Ok(PixelMode::Mono)
    } else if c == PIXEL_MODE_GRAY {
        Ok(PixelMode::Gray)
    } else if c == PIXEL_MODE_GRAY2 {
        Ok(PixelMode::Gray2)
    } else if c == PIXEL_MODE_GRAY4 {
        Ok(PixelMode::Gray4)
    } else if c == PIXEL_MODE_LCD {
        Ok(PixelMode::Lcd)
    } else if c == PIXEL_MODE_LCD_V {
        Ok(PixelMode::LcdV)
    } else if c == PIXEL_MODE_BGRA {
        Ok(PixelMode::Bgra)
    } else {
        Err(Error::UnexpectedPixelMode)
    }
}

/// A rendered glyph image: a row-major pixel buffer and its layout fields.
#[derive(Debug)]
pub struct Bitmap {
    width: i32,
    rows: i32,
    pitch: i32,
    pixel_mode: u8,
    buffer: Vec<u8>,
}

impl Bitmap {
    /// The number of pixels per row.
    pub closed spec fn spec_width(self) -> i32 {
        self.width
    }

    /// The number of rows.
    pub closed spec fn spec_rows(self) -> i32 {
        self.rows
    }

    /// The signed row stride in bytes.
    pub closed spec fn spec_pitch(self) -> i32 {
        self.pitch
    }

    /// The raw pixel-mode byte.
    pub closed spec fn spec_pixel_mode(self) -> u8 {
        self.pixel_mode
    }

    /// The pixel buffer.
    pub closed spec fn spec_buffer(self) -> Seq<u8> {
        self.buffer@
    }

    /// The bitmap's layout invariant: non-negative extents and a buffer of
    /// exactly one pitch's worth of bytes per row.
    pub open spec fn wf(self) -> bool {
        &&& self.spec_width() >= 0
        &&& self.spec_rows() >= 0
        &&& self.spec_pitch() != i32::MIN
        &&& self.spec_buffer().len() == (if self.spec_pitch() >= 0 {
            self.spec_pitch() as int
        } else {
            -self.spec_pitch() as int
        }) * self.spec_rows()
    }

    /// Whether the given layout fields and buffer form a valid bitmap.
    pub open spec fn bitmap_data_ok(
        width: i32,
        rows: i32,
        pitch: i32,
        buffer: Seq<u8>,
    ) -> bool {
        &&& width >= 0
        &&& rows >= 0
        &&& pitch != i32::MIN
        &&& buffer.len() == (if pitch >= 0 {
            pitch as int
        } else {
            -pitch as int
        }) * rows
    }

    /// Build a bitmap after validating its layout; mismatched fields are
    /// rejected as an invalid argument.
    pub fn new(width: i32, rows: i32, pitch: i32, pixel_mode: u8, buffer: Vec<u8>) -> (r: FtResult<
        Bitmap,
    >)
        ensures
            match r {
                Ok(b) => {
                    &&& Self::bitmap_data_ok(width, rows, pitch, buffer@)
                    &&& b.wf()
                    &&& b.spec_width() == width
                    &&& b.spec_rows() == rows
                    &&& b.spec_pitch() == pitch
                    &&& b.spec_pixel_mode() == pixel_mode
                    &&& b.spec_buffer() == buffer@
                },
                Err(e) => {
                    &&& e == Error::InvalidArgument
                    &&& !Self::bitmap_data_ok(width, rows, pitch, buffer@)
                },
            },
    {
        if width < 0 || rows < 0 || pitch == i32::MIN {
            return Err(Error::InvalidArgument);
        }
        let row_bytes: u64 = if pitch >= 0 {
            pitch as u64
        } else {
            (-pitch) as u64
        };
        let rows_u: u64 = rows as u64;
        proof {
            assert(row_bytes * rows_u <= 0x4000_0000_0000_0000u64) by (nonlinear_arith)
                requires
                    row_bytes <= 0x8000_0000u64,
                    rows_u <= 0x8000_0000u64,
            ;
        }
        if buffer.len() as u64 != row_bytes * rows_u {
            return Err(Error::InvalidArgument);
        }
        Ok(Bitmap { width, rows, pitch, pixel_mode, buffer })
    }

    /// The pixel buffer; by the layout invariant it holds exactly
    /// `|pitch| * rows` bytes.
    pub fn buffer(&self) -> (r: &Vec<u8>)
        requires
            self.wf(),
        ensures
            r@ == self.spec_buffer(),
            r@.len() == (if self.spec_pitch() >= 0 {
                self.spec_pitch() as int
            } else {
                -self.spec_pitch() as int
            }) * self.spec_rows(),
    {
        &self.buffer
    }

    /// The number of pixels in a bitmap row.
    pub fn width(&self) -> (r: i32)
        ensures
            r == self.spec_width(),
    {
        self.width
    }

    /// The number of bitmap rows.
    pub fn rows(&self) -> (r: i32)
        ensures
            r == self.spec_rows(),
    {
        self.rows
    }

    /// The signed row stride: its absolute value is the bytes per row, its
    /// sign the direction of row flow.
    pub fn pitch(&self) -> (r: i32)
        ensures
            r == self.spec_pitch(),
    {
        self.pitch
    }

    /// Whether another bitmap exposes the same data, field for field.
    pub open spec fn same_view(self, other: Bitmap) -> bool {
        &&& other.spec_width() == self.spec_width()
        &&& other.spec_rows() == self.spec_rows()
        &&& other.spec_pitch() == self.spec_pitch()
        &&& other.spec_pixel_mode() == self.spec_pixel_mode()
        &&& other.spec_buffer() == self.spec_buffer()
    }

    /// An independent copy of the bitmap, equal to it field for field.
    pub fn duplicate(&self) -> (r: Bitmap)
        ensures
            self.same_view(r),
            self.wf() ==> r.wf(),
    {
        Bitmap {
            width: self.width,
            rows: self.rows,
            pitch: self.pitch,
            pixel_mode: self.pixel_mode,
            buffer: crate::copy_vec(&self.buffer),
        }
    }

    /// The pixel layout of the buffer, decoded from the mode byte; a byte
    /// outside the published set is reported as `UnexpectedPixelMode`.
    pub fn pixel_mode(&self) -> (r: FtResult<PixelMode>)
        ensures
            r == pixel_mode_of_code(self.spec_pixel_mode()),
    {
        match self.pixel_mode {
            0 => Ok(PixelMode::Reserved),
            1 => Ok(PixelMode::Mono),
            2 => Ok(PixelMode::Gray),
            3 => Ok(PixelMode::Gray2),
            4 => Ok(PixelMode::Gray4),
            5 => Ok(PixelMode::Lcd),
            6 => Ok(PixelMode::LcdV),
            7 => Ok(PixelMode::Bgra),
            _ => Err(Error::UnexpectedPixelMode),
        }
    }
}

} // verus!
