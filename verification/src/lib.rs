//! A font-outline library modelled on the FreeType object layer.
//!
//! The heart of the crate is the outline decomposition iterator: it walks the
//! packed `points` / `tags` / `contours` arrays of a glyph outline and yields
//! the line and Bezier segments that make up each closed contour, including
//! the implied on-curve midpoints of TrueType-style quadratic runs.
//! Around it stand plain-value models of the library, face, glyph slot and
//! bitmap objects, together with the reference-counting discipline that keeps
//! a library alive while faces and glyphs derived from it exist.

use vstd::prelude::*;

pub mod bitmap;
pub mod bitmap_glyph;
pub mod charmap;
pub mod error;
pub mod face;
pub mod glyph;
pub mod glyph_slot;
pub mod library;
pub mod outline;
pub mod render_mode;
pub mod stroker;
pub mod tt_os2;
pub mod tt_postscript;

pub use crate::bitmap::Bitmap;
pub use crate::bitmap_glyph::BitmapGlyph;
pub use crate::error::{Error, FtResult};
pub use crate::face::Face;
pub use crate::glyph::Glyph;
pub use crate::glyph_slot::GlyphSlot;
pub use crate::library::{LcdFilter, Library};
pub use crate::outline::Outline;
pub use crate::render_mode::RenderMode;
pub use crate::stroker::{Stroker, StrokerLineCap, StrokerLineJoin};

verus! {

/// A two-dimensional point or displacement, in the fixed-point units that the
/// font format stores (26.6 pixels or raw font units; this crate never
/// rescales them).
#[derive(Clone, Copy, PartialEq, Eq, Structural, Debug)]
pub struct Vector {
    pub x: i64,
    pub y: i64,
}

/// An axis-aligned bounding box, in the same units as the outline points.
#[derive(Clone, Copy, PartialEq, Eq, Structural, Debug)]
pub struct BBox {
    pub x_min: i64,
    pub y_min: i64,
    pub x_max: i64,
    pub y_max: i64,
}

/// A 2x2 transformation matrix with 16.16 fixed-point coefficients.
#[derive(Clone, Copy, PartialEq, Eq, Structural, Debug)]
pub struct Matrix {
    pub xx: i64,
    pub xy: i64,
    pub yx: i64,
    pub yy: i64,
}

/// The measured extents of one loaded glyph, in 26.6 fractional pixels or
/// font units depending on the loading options.
#[derive(Clone, Copy, PartialEq, Eq, Structural, Debug)]
pub struct GlyphMetrics {
    pub width: i64,
    pub height: i64,
    pub hori_bearing_x: i64,
    pub hori_bearing_y: i64,
    pub hori_advance: i64,
    pub vert_bearing_x: i64,
    pub vert_bearing_y: i64,
    pub vert_advance: i64,
}

/// The scaled metrics of a face's active size.
#[derive(Clone, Copy, PartialEq, Eq, Structural, Debug)]
pub struct SizeMetrics {
    pub x_ppem: u16,
    pub y_ppem: u16,
    pub x_scale: i64,
    pub y_scale: i64,
    pub ascender: i64,
    pub descender: i64,
    pub height: i64,
    pub max_advance: i64,
}

/// An element-for-element copy of a vector of plain values.
pub(crate) fn copy_vec<T: Copy>(v: &Vec<T>) -> (r: Vec<T>)
    ensures
        r@ == v@,
{
    let mut out: Vec<T> = Vec::new();
    let mut i: usize = 0;
    while i < v.len()
        invariant
            i <= v@.len(),
            out@ == v@.subrange(0, i as int),
        decreases v@.len() - i,
    {
        out.push(v[i]);
        i = i + 1;
    }
    proof {
        assert(out@ =~= v@);
    }
    out
}

} // verus!
