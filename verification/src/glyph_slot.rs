//! The glyph slot: the reusable buffer a face loads one glyph into.

use vstd::prelude::*;

use crate::{GlyphMetrics, Matrix, Vector};
use crate::bitmap::Bitmap;
use crate::glyph::GLYPH_FORMAT_OUTLINE;
use crate::outline::Outline;

verus! {

/// A description of one sub-glyph of a composite glyph.
#[derive(Clone, Copy, PartialEq, Eq, Structural, Debug)]
pub struct SubGlyphInfo {
    /// The glyph index of the sub-glyph.
    pub index: i32,
    /// The sub-glyph flag bits.
    pub flags: u32,
    /// The sub-glyph's first argument, if any.
    pub arg1: i32,
    /// The sub-glyph's second argument, if any.
    pub arg2: i32,
    /// The sub-glyph transformation, if any.
    pub transform: Matrix,
}

impl Default for SubGlyphInfo {
    /// The all-zero sub-glyph description.
    fn default() -> (r: SubGlyphInfo)
        ensures
            r.index == 0,
            r.flags == 0,
            r.arg1 == 0,
            r.arg2 == 0,
            r.transform == (Matrix { xx: 0, xy: 0, yx: 0, yy: 0 }),
    {
        SubGlyphInfo {
            index: 0,
            flags: 0,
            arg1: 0,
            arg2: 0,
            transform: Matrix { xx: 0, xy: 0, yx: 0, yy: 0 },
        }
    }
}

/// The space within a library that one glyph is loaded into: the glyph's
/// image in whichever form it currently takes, and its measurements.
#[derive(Debug)]
pub struct GlyphSlot {
    format: u32,
    outline: Option<Outline>,
    bitmap: Bitmap,
    bitmap_left: i32,
    bitmap_top: i32,
    advance: Vector,
    linear_hori_advance: i64,
    linear_vert_advance: i64,
    metrics: GlyphMetrics,
}

impl GlyphSlot {
    /// The image-format tag of the loaded glyph.
    pub closed spec fn spec_format(self) -> u32 {
        self.format
    }

    /// The outline held by the slot, when the image is scalable.
    pub closed spec fn spec_outline(self) -> Option<Outline> {
        self.outline
    }

    /// The bitmap held by the slot.
    pub closed spec fn spec_bitmap(self) -> Bitmap {
        self.bitmap
    }

    /// The bitmap's left bearing in integer pixels.
    pub closed spec fn spec_bitmap_left(self) -> i32 {
        self.bitmap_left
    }

    /// The bitmap's top bearing in integer pixels.
    pub closed spec fn spec_bitmap_top(self) -> i32 {
        self.bitmap_top
    }

    /// The transformed advance of the loaded glyph.
    pub closed spec fn spec_advance(self) -> Vector {
        self.advance
    }

    /// The unhinted horizontal advance.
    pub closed spec fn spec_linear_hori_advance(self) -> i64 {
        self.linear_hori_advance
    }

    /// The unhinted vertical advance.
    pub closed spec fn spec_linear_vert_advance(self) -> i64 {
        self.linear_vert_advance
    }

    /// The metrics of the loaded glyph.
    pub closed spec fn spec_metrics(self) -> GlyphMetrics {
        self.metrics
    }

    /// The slot's invariant: it holds an outline exactly when the image
    /// format says so, any outline it holds is well formed, and so is the
    /// bitmap.
    pub open spec fn wf(self) -> bool {
        &&& (self.spec_format() == GLYPH_FORMAT_OUTLINE <==> self.spec_outline() is Some)
        &&& match self.spec_outline() {
            Some(o) => o.wf(),
            None => true,
        }
        &&& self.spec_bitmap().wf()
    }

    /// Assemble a glyph slot from the parts of one loaded glyph.
    pub fn new(
        format: u32,
        outline: Option<Outline>,
        bitmap: Bitmap,
        bitmap_left: i32,
        bitmap_top: i32,
        advance: Vector,
        linear_hori_advance: i64,
        linear_vert_advance: i64,
        metrics: GlyphMetrics,
    ) -> (r: GlyphSlot)
        requires
            format == GLYPH_FORMAT_OUTLINE <==> outline is Some,
            match outline {
                Some(o) => o.wf(),
                None => true,
            },
            bitmap.wf(),
        ensures
            r.wf(),
            r.spec_format() == format,
            r.spec_outline() == outline,
            r.spec_bitmap() == bitmap,
            r.spec_bitmap_left() == bitmap_left,
            r.spec_bitmap_top() == bitmap_top,
            r.spec_advance() == advance,
            r.spec_linear_hori_advance() == linear_hori_advance,
            r.spec_linear_vert_advance() == linear_vert_advance,
            r.spec_metrics() == metrics,
    {
        GlyphSlot {
            format,
            outline,
            bitmap,
            bitmap_left,
            bitmap_top,
            advance,
            linear_hori_advance,
            linear_vert_advance,
            metrics,
        }
    }

    /// Whether another slot exposes the same data, field for field.
    pub open spec fn same_view(self, other: GlyphSlot) -> bool {
        &&& other.spec_format() == self.spec_format()
        &&& match (self.spec_outline(), other.spec_outline()) {
            (Some(a), Some(b)) => {
                &&& b.spec_points() == a.spec_points()
                &&& b.spec_tags() == a.spec_tags()
                &&& b.spec_contours() == a.spec_contours()
            },
            (None, None) => true,
            _ => false,
        }
        &&& self.spec_bitmap().same_view(other.spec_bitmap())
        &&& other.spec_bitmap_left() == self.spec_bitmap_left()
        &&& other.spec_bitmap_top() == self.spec_bitmap_top()
        &&& other.spec_advance() == self.spec_advance()
        &&& other.spec_linear_hori_advance() == self.spec_linear_hori_advance()
        &&& other.spec_linear_vert_advance() == self.spec_linear_vert_advance()
        &&& other.spec_metrics() == self.spec_metrics()
    }

    /// An independent copy of the slot, equal to it field for field.
    pub fn duplicate(&self) -> (r: GlyphSlot)
        ensures
            self.same_view(r),
            self.wf() ==> r.wf(),
    {
        GlyphSlot {
            format: self.format,
            outline: match &self.outline {
                Some(o) => Some(o.duplicate()),
                None => None,
            },
            bitmap: self.bitmap.duplicate(),
            bitmap_left: self.bitmap_left,
            bitmap_top: self.bitmap_top,
            advance: self.advance,
            linear_hori_advance: self.linear_hori_advance,
            linear_vert_advance: self.linear_vert_advance,
            metrics: self.metrics,
        }
    }

    /// The outline of a scalable glyph, or `None` when the slot holds no
    /// outline image.
    pub fn outline(&self) -> (r: Option<&Outline>)
        requires
            self.wf(),
        ensures
            match r {
                Some(o) => {
                    &&& self.spec_format() == GLYPH_FORMAT_OUTLINE
                    &&& self.spec_outline() == Some(*o)
                    &&& o.wf()
                },
                None => {
                    &&& self.spec_format() != GLYPH_FORMAT_OUTLINE
                    &&& self.spec_outline() is None
                },
            },
    {
        if self.format == GLYPH_FORMAT_OUTLINE {
            self.outline.as_ref()
        } else {
            None
        }
    }

    /// The bitmap descriptor of the slot; meaningful when the image format
    /// is a bitmap.
    pub fn bitmap(&self) -> (r: &Bitmap)
        ensures
            *r == self.spec_bitmap(),
    {
        &self.bitmap
    }

    /// The bitmap's left bearing in integer pixels.
    pub fn bitmap_left(&self) -> (r: i32)
        ensures
            r == self.spec_bitmap_left(),
    {
        self.bitmap_left
    }

    /// The bitmap's top bearing in integer pixels, upward being positive.
    pub fn bitmap_top(&self) -> (r: i32)
        ensures
            r == self.spec_bitmap_top(),
    {
        self.bitmap_top
    }

    /// The transformed advance width of the glyph, in 26.6 pixels.
    pub fn advance(&self) -> (r: Vector)
        ensures
            r == self.spec_advance(),
    {
        self.advance
    }

    /// The unhinted horizontal advance, in 16.16 pixels unless linear
    /// design units were requested at load time.
    pub fn linear_hori_advance(&self) -> (r: i64)
        ensures
            r == self.spec_linear_hori_advance(),
    {
        self.linear_hori_advance
    }

    /// The unhinted vertical advance, in the same units.
    pub fn linear_vert_advance(&self) -> (r: i64)
        ensures
            r == self.spec_linear_vert_advance(),
    {
        self.linear_vert_advance
    }

    /// The metrics of the last loaded glyph.
    pub fn metrics(&self) -> (r: GlyphMetrics)
        ensures
            r == self.spec_metrics(),
    {
        self.metrics
    }
}

} // verus!
