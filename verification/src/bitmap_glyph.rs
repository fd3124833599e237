//! A glyph image already rendered to a bitmap, with its placement.
//!
//! Like every wrapper derived from a library, a bitmap glyph holds one
//! library reference from construction to discard, and a copy holds one of
//! its own.

use vstd::prelude::*;

use crate::bitmap::Bitmap;
use crate::library::Library;

verus! {

/// A rendered glyph bitmap together with its placement on the baseline.
#[derive(Debug)]
pub struct BitmapGlyph {
    left: i32,
    top: i32,
    bitmap: Bitmap,
}

impl BitmapGlyph {
    /// The bitmap's left bearing in integer pixels.
    pub closed spec fn spec_left(self) -> i32 {
        self.left
    }

    /// The bitmap's top bearing in integer pixels.
    pub closed spec fn spec_top(self) -> i32 {
        self.top
    }

    /// The rendered bitmap.
    pub closed spec fn spec_bitmap(self) -> Bitmap {
        self.bitmap
    }

    /// Record a bitmap glyph handed out by the engine, acquiring the
    /// library reference that keeps the library alive alongside it.
    pub fn new(left: i32, top: i32, bitmap: Bitmap, library: &mut Library) -> (r: BitmapGlyph)
        requires
            old(library).spec_refs() < u64::MAX,
        ensures
            final(library).spec_handle() == old(library).spec_handle(),
            final(library).spec_refs() == old(library).spec_refs() + 1,
            r.spec_left() == left,
            r.spec_top() == top,
            r.spec_bitmap() == bitmap,
    {
        library.retain();
        BitmapGlyph { left, top, bitmap }
    }

    /// Copy the bitmap glyph; the copy holds a library reference of its own.
    pub fn clone_with(&self, library: &mut Library) -> (r: BitmapGlyph)
        requires
            old(library).spec_refs() < u64::MAX,
        ensures
            final(library).spec_handle() == old(library).spec_handle(),
            final(library).spec_refs() == old(library).spec_refs() + 1,
            r.spec_left() == self.spec_left(),
            r.spec_top() == self.spec_top(),
            r.spec_bitmap().spec_width() == self.spec_bitmap().spec_width(),
            r.spec_bitmap().spec_rows() == self.spec_bitmap().spec_rows(),
            r.spec_bitmap().spec_pitch() == self.spec_bitmap().spec_pitch(),
            r.spec_bitmap().spec_pixel_mode() == self.spec_bitmap().spec_pixel_mode(),
            r.spec_bitmap().spec_buffer() == self.spec_bitmap().spec_buffer(),
    {
        library.retain();
        BitmapGlyph { left: self.left, top: self.top, bitmap: self.bitmap.duplicate() }
    }

    /// The distance from the origin to the bitmap's left edge, in pixels.
    pub fn left(&self) -> (r: i32)
        ensures
            r == self.spec_left(),
    {
        self.left
    }

    /// The distance from the baseline to the bitmap's top row, in pixels,
    /// upward coordinates being positive.
    pub fn top(&self) -> (r: i32)
        ensures
            r == self.spec_top(),
    {
        self.top
    }

    /// The rendered bitmap itself.
    pub fn bitmap(&self) -> (r: &Bitmap)
        ensures
            *r == self.spec_bitmap(),
    {
        &self.bitmap
    }

    /// Discard the bitmap glyph, releasing the library reference it held.
    pub fn discard(self, library: &mut Library)
        requires
            old(library).spec_refs() >= 1,
        ensures
            final(library).spec_handle() == old(library).spec_handle(),
            final(library).spec_refs() == old(library).spec_refs() - 1,
    {
        library.release();
    }
}

} // verus!
