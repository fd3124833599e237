//! A glyph image managed outside the glyph slot.
//!
//! A glyph keeps its library alive: construction and copying acquire one
//! library reference each, and discarding the glyph releases it again.

use vstd::prelude::*;

use crate::Vector;
use crate::library::Library;

verus! {

/// Image-format tag: no image.
pub const GLYPH_FORMAT_NONE: u32 = 0;
/// Image-format tag: a composite of sub-glyphs.
pub const GLYPH_FORMAT_COMPOSITE: u32 = 1668246896;
/// Image-format tag: a rendered bitmap.
pub const GLYPH_FORMAT_BITMAP: u32 = 1651078259;
/// Image-format tag: a scalable outline.
pub const GLYPH_FORMAT_OUTLINE: u32 = 1869968492;
/// Image-format tag: a plotter vector image.
pub const GLYPH_FORMAT_PLOTTER: u32 = 1886154612;

/// A glyph image retrieved from a glyph slot, with the advance it carries.
/// Discarding it consumes it, as the release of its engine object would.
#[derive(PartialEq, Eq, Structural, Debug)]
pub struct Glyph {
    format: u32,
    advance: Vector,
}

impl Glyph {
    /// The image-format tag of the glyph.
    pub closed spec fn spec_format(self) -> u32 {
        self.format
    }

    /// The glyph's advance vector, in 16.16 fractional pixels.
    pub closed spec fn spec_advance(self) -> Vector {
        self.advance
    }

    /// Record a glyph handed out by the engine, acquiring the library
    /// reference that keeps the library alive as long as the glyph exists.
    pub fn new(format: u32, advance: Vector, library: &mut Library) -> (r: Glyph)
        requires
            old(library).spec_refs() < u64::MAX,
        ensures
            final(library).spec_handle() == old(library).spec_handle(),
            final(library).spec_refs() == old(library).spec_refs() + 1,
            r.spec_format() == format,
            r.spec_advance() == advance,
    {
        library.retain();
        Glyph { format, advance }
    }

    /// Copy the glyph; the copy holds a library reference of its own.
    pub fn clone_with(&self, library: &mut Library) -> (r: Glyph)
        requires
            old(library).spec_refs() < u64::MAX,
        ensures
            final(library).spec_handle() == old(library).spec_handle(),
            final(library).spec_refs() == old(library).spec_refs() + 1,
            r == *self,
    {
        library.retain();
        Glyph { format: self.format, advance: self.advance }
    }

    /// The horizontal component of the glyph's advance.
    pub fn advance_x(&self) -> (r: i64)
        ensures
            r == self.spec_advance().x,
    {
        self.advance.x
    }

    /// The vertical component of the glyph's advance.
    pub fn advance_y(&self) -> (r: i64)
        ensures
            r == self.spec_advance().y,
    {
        self.advance.y
    }

    /// The image-format tag of the glyph.
    pub fn format(&self) -> (r: u32)
        ensures
            r == self.spec_format(),
    {
        self.format
    }

    /// Discard the glyph, releasing the library reference it held.
    pub fn discard(self, library: &mut Library)
        requires
            old(library).spec_refs() >= 1,
        ensures
            final(library).spec_handle() == old(library).spec_handle(),
            final(library).spec_refs() == old(library).spec_refs() - 1,
    {
        library.release();
    }
}

} // verus!
