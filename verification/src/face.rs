//! Font faces: per-face flags, metrics, names and the character map.
//!
//! The engine work of opening and sizing a face is outside this crate; the
//! face modelled here is the plain data a loaded face exposes, with the
//! flag tests, the glyph slot and the ordered character-to-glyph map.

use vstd::prelude::*;

use crate::SizeMetrics;
use crate::charmap::CharMap;
use crate::glyph_slot::GlyphSlot;
use crate::library::Library;

verus! {

/// Face-flag bit: the face provides scalable outlines.
pub const FACE_FLAG_SCALABLE: i64 = 0x1;
/// Face-flag bit: the face provides fixed bitmap strikes.
pub const FACE_FLAG_FIXED_SIZES: i64 = 0x2;
/// Face-flag bit: all glyphs share one advance width.
pub const FACE_FLAG_FIXED_WIDTH: i64 = 0x4;
/// Face-flag bit: the font is stored in an SFNT container.
pub const FACE_FLAG_SFNT: i64 = 0x8;
/// Face-flag bit: horizontal metrics are present.
pub const FACE_FLAG_HORIZONTAL: i64 = 0x10;
/// Face-flag bit: vertical metrics are present.
pub const FACE_FLAG_VERTICAL: i64 = 0x20;
/// Face-flag bit: kerning data is present.
pub const FACE_FLAG_KERNING: i64 = 0x40;
/// Face-flag bit: multiple-master axes are present.
pub const FACE_FLAG_MULTIPLE_MASTERS: i64 = 0x100;
/// Face-flag bit: glyph names are present.
pub const FACE_FLAG_GLYPH_NAMES: i64 = 0x200;
/// Face-flag bit: the face is keyed by CIDs rather than glyph indices.
pub const FACE_FLAG_CID_KEYED: i64 = 0x1000;
/// Face-flag bit: the face needs its native bytecode interpreter.
pub const FACE_FLAG_TRICKY: i64 = 0x2000;
/// Face-flag bit: the face carries color glyphs.
pub const FACE_FLAG_COLOR: i64 = 0x4000;

/// Style-flag bit: the face is italic.
pub const STYLE_FLAG_ITALIC: i64 = 0x1;
/// Style-flag bit: the face is bold.
pub const STYLE_FLAG_BOLD: i64 = 0x2;

/// How kerning distances are scaled when queried.
#[derive(Clone, Copy, PartialEq, Eq, Structural, Debug)]
pub enum KerningMode {
    /// Scaled, hinted kerning distances.
    KerningDefault,
    /// Scaled but unhinted kerning distances.
    KerningUnfitted,
    /// Kerning distances in raw font units.
    KerningUnscaled,
}

/// The numeric code of a kerning mode, as the font engine numbers them.
pub open spec fn kerning_mode_code(m: KerningMode) -> u32 {
    match m {
        KerningMode::KerningDefault => 0,
        KerningMode::KerningUnfitted => 1,
        KerningMode::KerningUnscaled => 2,
    }
}

impl KerningMode {
    /// The numeric code of this kerning mode.
    pub fn code(&self) -> (r: u32)
        ensures
            r == kerning_mode_code(*self),
    {
        match self {
            KerningMode::KerningDefault => 0,
            KerningMode::KerningUnfitted => 1,
            KerningMode::KerningUnscaled => 2,
        }
    }
}

/// A set of glyph-loading options, stored as the engine's bit mask.
#[derive(Clone, Copy, PartialEq, Eq, Structural, Debug)]
pub struct LoadFlag {
    /// The raw bit mask.
    pub bits: i32,
}

impl LoadFlag {
    /// The empty option set.
    pub fn empty() -> (r: LoadFlag)
        ensures
            r.bits == 0,
    {
        LoadFlag { bits: 0 }
    }

    /// Loading option: no special handling.
    pub fn default_flags() -> (r: LoadFlag)
        ensures
            r.bits == 0x0,
    {
        LoadFlag { bits: 0x0 }
    }

    /// Loading option: keep unscaled font units.
    pub fn no_scale() -> (r: LoadFlag)
        ensures
            r.bits == 0x1,
    {
        LoadFlag { bits: 0x1 }
    }

    /// Loading option: skip hinting.
    pub fn no_hinting() -> (r: LoadFlag)
        ensures
            r.bits == 0x2,
    {
        LoadFlag { bits: 0x2 }
    }

    /// Loading option: render the glyph after loading.
    pub fn render() -> (r: LoadFlag)
        ensures
            r.bits == 0x4,
    {
        LoadFlag { bits: 0x4 }
    }

    /// Loading option: ignore embedded bitmaps.
    pub fn no_bitmap() -> (r: LoadFlag)
        ensures
            r.bits == 0x8,
    {
        LoadFlag { bits: 0x8 }
    }

    /// Loading option: load for vertical layout.
    pub fn vertical_layout() -> (r: LoadFlag)
        ensures
            r.bits == 0x10,
    {
        LoadFlag { bits: 0x10 }
    }

    /// Loading option: prefer the auto-hinter.
    pub fn force_autohint() -> (r: LoadFlag)
        ensures
            r.bits == 0x20,
    {
        LoadFlag { bits: 0x20 }
    }

    /// Loading option: crop embedded bitmaps.
    pub fn crop_bitmap() -> (r: LoadFlag)
        ensures
            r.bits == 0x40,
    {
        LoadFlag { bits: 0x40 }
    }

    /// Loading option: validate bytecode pedantically.
    pub fn pedantic() -> (r: LoadFlag)
        ensures
            r.bits == 0x80,
    {
        LoadFlag { bits: 0x80 }
    }

    /// Loading option: ignore the global advance width.
    pub fn ignore_global_advance_width() -> (r: LoadFlag)
        ensures
            r.bits == 0x200,
    {
        LoadFlag { bits: 0x200 }
    }

    /// Loading option: do not recurse into composites.
    pub fn no_recurse() -> (r: LoadFlag)
        ensures
            r.bits == 0x400,
    {
        LoadFlag { bits: 0x400 }
    }

    /// Loading option: ignore the face transform.
    pub fn ignore_transform() -> (r: LoadFlag)
        ensures
            r.bits == 0x800,
    {
        LoadFlag { bits: 0x800 }
    }

    /// Loading option: hint for monochrome rendering.
    pub fn monochrome() -> (r: LoadFlag)
        ensures
            r.bits == 0x1000,
    {
        LoadFlag { bits: 0x1000 }
    }

    /// Loading option: report linear metrics in design units.
    pub fn linear_design() -> (r: LoadFlag)
        ensures
            r.bits == 0x2000,
    {
        LoadFlag { bits: 0x2000 }
    }

    /// Loading option: never use the auto-hinter.
    pub fn no_autohint() -> (r: LoadFlag)
        ensures
            r.bits == 0x8000,
    {
        LoadFlag { bits: 0x8000 }
    }

    /// Loading option: hint for normal anti-aliased rendering.
    pub fn target_normal() -> (r: LoadFlag)
        ensures
            r.bits == 0x0,
    {
        LoadFlag { bits: 0x0 }
    }

    /// Loading option: hint with the light algorithm.
    pub fn target_light() -> (r: LoadFlag)
        ensures
            r.bits == 0x10000,
    {
        LoadFlag { bits: 0x10000 }
    }

    /// Loading option: hint for monochrome rendering.
    pub fn target_mono() -> (r: LoadFlag)
        ensures
            r.bits == 0x20000,
    {
        LoadFlag { bits: 0x20000 }
    }

    /// Loading option: hint for horizontal LCD rendering.
    pub fn target_lcd() -> (r: LoadFlag)
        ensures
            r.bits == 0x30000,
    {
        LoadFlag { bits: 0x30000 }
    }

    /// Loading option: hint for vertical LCD rendering.
    pub fn target_lcd_v() -> (r: LoadFlag)
        ensures
            r.bits == 0x40000,
    {
        LoadFlag { bits: 0x40000 }
    }

    /// Loading option: load embedded color layers.
    pub fn color() -> (r: LoadFlag)
        ensures
            r.bits == 0x100000,
    {
        LoadFlag { bits: 0x100000 }
    }
    /// The raw bit mask of this option set.
    pub fn bits(&self) -> (r: i32)
        ensures
            r == self.bits,
    {
        self.bits
    }

    /// The union of two option sets.
    pub fn union(self, other: LoadFlag) -> (r: LoadFlag)
        ensures
            r.bits == self.bits | other.bits,
    {
        LoadFlag { bits: self.bits | other.bits }
    }

    /// Whether every option of `other` is set in `self`.
    pub fn contains(self, other: LoadFlag) -> (r: bool)
        ensures
            r == (self.bits & other.bits == other.bits),
    {
        self.bits & other.bits == other.bits
    }
}

/// A set of style flags, stored as the engine's bit mask.
#[derive(Clone, Copy, PartialEq, Eq, Structural, Debug)]
pub struct StyleFlag {
    /// The raw bit mask.
    pub bits: i64,
}

impl StyleFlag {
    /// The empty style set.
    pub fn empty() -> (r: StyleFlag)
        ensures
            r.bits == 0,
    {
        StyleFlag { bits: 0 }
    }

    /// The bold style flag.
    pub fn bold() -> (r: StyleFlag)
        ensures
            r.bits == STYLE_FLAG_BOLD,
    {
        StyleFlag { bits: STYLE_FLAG_BOLD }
    }

    /// The italic style flag.
    pub fn italic() -> (r: StyleFlag)
        ensures
            r.bits == STYLE_FLAG_ITALIC,
    {
        StyleFlag { bits: STYLE_FLAG_ITALIC }
    }

    /// The style set of a raw mask, with unknown bits dropped.
    pub fn from_bits_truncate(bits: i64) -> (r: StyleFlag)
        ensures
            r.bits == bits & (STYLE_FLAG_BOLD | STYLE_FLAG_ITALIC),
    {
        StyleFlag { bits: bits & (STYLE_FLAG_BOLD | STYLE_FLAG_ITALIC) }
    }

    /// The raw bit mask of this style set.
    pub fn bits(&self) -> (r: i64)
        ensures
            r == self.bits,
    {
        self.bits
    }

    /// Whether every flag of `other` is set in `self`.
    pub fn contains(self, other: StyleFlag) -> (r: bool)
        ensures
            r == (self.bits & other.bits == other.bits),
    {
        self.bits & other.bits == other.bits
    }
}

/// A loaded font face: its capability flags, global metrics, names, glyph
/// slot, and the ordered map from character codes to glyph indices.
#[derive(Debug)]
pub struct Face {
    /// The capability flag bits of the face.
    pub face_flags: i64,
    /// The style flag bits of the face.
    pub style_flags: i64,
    /// The typographic ascender in font units.
    pub ascender: i16,
    /// The typographic descender in font units, negative below the baseline.
    pub descender: i16,
    /// The number of font units per EM square.
    pub em_size: i16,
    /// The default line spacing in font units.
    pub height: i16,
    /// The maximal horizontal advance in font units.
    pub max_advance_width: i16,
    /// The maximal vertical advance in font units.
    pub max_advance_height: i16,
    /// The underline position in font units.
    pub underline_position: i16,
    /// The underline thickness in font units.
    pub underline_thickness: i16,
    /// How many faces the underlying font file holds.
    pub num_faces: i16,
    /// How many glyphs the face holds.
    pub num_glyphs: i64,
    /// How many character maps the face holds.
    pub num_charmaps: i32,
    /// The face's family name, when the format provides one.
    pub family_name: Option<String>,
    /// The face's style name, when the format provides one.
    pub style_name: Option<String>,
    /// The face's PostScript name, when the format provides one.
    pub postscript_name: Option<String>,
    /// The metrics of the active size, once a size has been set.
    pub size_metrics: Option<SizeMetrics>,
    /// The face's glyph slot.
    pub glyph: GlyphSlot,
    /// The character map: `(character code, glyph index)` pairs in strictly
    /// increasing code order, every glyph index nonzero.
    pub charmap: Vec<(usize, u32)>,
    /// The character-map descriptors of the face.
    pub charmaps: Vec<CharMap>,
}

impl Face {
    /// The face's invariant: the character map is strictly ordered by code,
    /// maps no character to glyph index zero, and the glyph slot is well
    /// formed.
    pub open spec fn wf(self) -> bool {
        &&& (forall|i: int| 0 <= i < self.charmap@.len() ==> (#[trigger] self.charmap@[i]).1 != 0)
        &&& (forall|i: int|
            0 < i < self.charmap@.len() ==> self.charmap@[i - 1].0 < (#[trigger] self.charmap@[i]).0)
        &&& self.glyph.wf()
    }

    /// An iterator over the face's character map, yielding each mapped
    /// `(character code, glyph index)` pair in increasing code order.
    pub fn chars(&self) -> (r: CharIterator<'_>)
        requires
            self.wf(),
        ensures
            r.wf(),
            r.spec_face() == *self,
            r.position() == 0,
    {
        CharIterator::new(self)
    }

    /// The face's glyph slot; loading a glyph replaces its contents.
    pub fn glyph(&self) -> (r: &GlyphSlot)
        ensures
            *r == self.glyph,
    {
        &self.glyph
    }

    /// Whether the face carries horizontal metrics.
    pub fn has_horizontal(&self) -> (r: bool)
        ensures
            r == (self.face_flags & FACE_FLAG_HORIZONTAL != 0),
    {
        self.face_flags & FACE_FLAG_HORIZONTAL != 0
    }

    /// Whether the face carries vertical metrics.
    pub fn has_vertical(&self) -> (r: bool)
        ensures
            r == (self.face_flags & FACE_FLAG_VERTICAL != 0),
    {
        self.face_flags & FACE_FLAG_VERTICAL != 0
    }

    /// Whether the face carries kerning data.
    pub fn has_kerning(&self) -> (r: bool)
        ensures
            r == (self.face_flags & FACE_FLAG_KERNING != 0),
    {
        self.face_flags & FACE_FLAG_KERNING != 0
    }

    /// Whether the face provides scalable outlines.
    pub fn is_scalable(&self) -> (r: bool)
        ensures
            r == (self.face_flags & FACE_FLAG_SCALABLE != 0),
    {
        self.face_flags & FACE_FLAG_SCALABLE != 0
    }

    /// Whether the font is stored in an SFNT container.
    pub fn is_sfnt(&self) -> (r: bool)
        ensures
            r == (self.face_flags & FACE_FLAG_SFNT != 0),
    {
        self.face_flags & FACE_FLAG_SFNT != 0
    }

    /// Whether all glyphs share one advance width.
    pub fn is_fixed_width(&self) -> (r: bool)
        ensures
            r == (self.face_flags & FACE_FLAG_FIXED_WIDTH != 0),
    {
        self.face_flags & FACE_FLAG_FIXED_WIDTH != 0
    }

    /// Whether the face provides fixed bitmap strikes.
    pub fn has_fixed_sizes(&self) -> (r: bool)
        ensures
            r == (self.face_flags & FACE_FLAG_FIXED_SIZES != 0),
    {
        self.face_flags & FACE_FLAG_FIXED_SIZES != 0
    }

    /// Whether the face provides glyph names.
    pub fn has_glyph_names(&self) -> (r: bool)
        ensures
            r == (self.face_flags & FACE_FLAG_GLYPH_NAMES != 0),
    {
        self.face_flags & FACE_FLAG_GLYPH_NAMES != 0
    }

    /// Whether the face is keyed by CIDs.
    pub fn is_cid_keyed(&self) -> (r: bool)
        ensures
            r == (self.face_flags & FACE_FLAG_CID_KEYED != 0),
    {
        self.face_flags & FACE_FLAG_CID_KEYED != 0
    }

    /// Whether the face needs its native bytecode interpreter.
    pub fn is_tricky(&self) -> (r: bool)
        ensures
            r == (self.face_flags & FACE_FLAG_TRICKY != 0),
    {
        self.face_flags & FACE_FLAG_TRICKY != 0
    }

    /// Whether the face carries color glyphs.
    pub fn has_color(&self) -> (r: bool)
        ensures
            r == (self.face_flags & FACE_FLAG_COLOR != 0),
    {
        self.face_flags & FACE_FLAG_COLOR != 0
    }

    /// The typographic ascender in font units.
    pub fn ascender(&self) -> (r: i16)
        ensures
            r == self.ascender,
    {
        self.ascender
    }

    /// The typographic descender in font units.
    pub fn descender(&self) -> (r: i16)
        ensures
            r == self.descender,
    {
        self.descender
    }

    /// The number of font units per EM square.
    pub fn em_size(&self) -> (r: i16)
        ensures
            r == self.em_size,
    {
        self.em_size
    }

    /// The default line spacing in font units.
    pub fn height(&self) -> (r: i16)
        ensures
            r == self.height,
    {
        self.height
    }

    /// The maximal horizontal advance in font units.
    pub fn max_advance_width(&self) -> (r: i16)
        ensures
            r == self.max_advance_width,
    {
        self.max_advance_width
    }

    /// The maximal vertical advance in font units.
    pub fn max_advance_height(&self) -> (r: i16)
        ensures
            r == self.max_advance_height,
    {
        self.max_advance_height
    }

    /// The underline position in font units.
    pub fn underline_position(&self) -> (r: i16)
        ensures
            r == self.underline_position,
    {
        self.underline_position
    }

    /// The underline thickness in font units.
    pub fn underline_thickness(&self) -> (r: i16)
        ensures
            r == self.underline_thickness,
    {
        self.underline_thickness
    }

    /// How many faces the underlying font file holds.
    pub fn num_faces(&self) -> (r: i16)
        ensures
            r == self.num_faces,
    {
        self.num_faces
    }

    /// How many glyphs the face holds.
    pub fn num_glyphs(&self) -> (r: i64)
        ensures
            r == self.num_glyphs,
    {
        self.num_glyphs
    }

    /// How many character maps the face holds.
    pub fn num_charmaps(&self) -> (r: i32)
        ensures
            r == self.num_charmaps,
    {
        self.num_charmaps
    }

    /// The glyph index that a character code maps to, or `None` for an
    /// unmapped code.
    pub fn get_char_index(&self, charcode: usize) -> (r: Option<u32>)
        ensures
            match r {
                Some(g) => exists|i: int|
                    0 <= i < self.charmap@.len() && #[trigger] self.charmap@[i] == (charcode, g),
                None => forall|i: int|
                    0 <= i < self.charmap@.len() ==> (#[trigger] self.charmap@[i]).0 != charcode,
            },
    {
        let mut i: usize = 0;
        while i < self.charmap.len()
            invariant
                i <= self.charmap@.len(),
                forall|j: int| 0 <= j < i ==> (#[trigger] self.charmap@[j]).0 != charcode,
            decreases self.charmap@.len() - i,
        {
            let pair = self.charmap[i];
            if pair.0 == charcode {
                return Some(pair.1);
            }
            i = i + 1;
        }
        None
    }

    /// The character-map descriptor at the given index.
    pub fn get_charmap(&self, charmap_index: usize) -> (r: CharMap)
        requires
            charmap_index < self.charmaps@.len(),
        ensures
            r == self.charmaps@[charmap_index as int],
    {
        self.charmaps[charmap_index]
    }

    /// Whether another face exposes the same data, field for field.
    pub open spec fn same_view(self, other: Face) -> bool {
        &&& other.face_flags == self.face_flags
        &&& other.style_flags == self.style_flags
        &&& other.ascender == self.ascender
        &&& other.descender == self.descender
        &&& other.em_size == self.em_size
        &&& other.height == self.height
        &&& other.max_advance_width == self.max_advance_width
        &&& other.max_advance_height == self.max_advance_height
        &&& other.underline_position == self.underline_position
        &&& other.underline_thickness == self.underline_thickness
        &&& other.num_faces == self.num_faces
        &&& other.num_glyphs == self.num_glyphs
        &&& other.num_charmaps == self.num_charmaps
        &&& other.family_name == self.family_name
        &&& other.style_name == self.style_name
        &&& other.postscript_name == self.postscript_name
        &&& other.size_metrics == self.size_metrics
        &&& self.glyph.same_view(other.glyph)
        &&& other.charmap@ == self.charmap@
        &&& other.charmaps@ == self.charmaps@
    }

    /// Copy the face.  A copy shares the underlying engine objects, so it
    /// acquires a library reference of its own, released again when the
    /// copy is discarded.
    pub fn clone_with(&self, library: &mut Library) -> (r: Face)
        requires
            old(library).spec_refs() < u64::MAX,
        ensures
            final(library).spec_handle() == old(library).spec_handle(),
            final(library).spec_refs() == old(library).spec_refs() + 1,
            self.same_view(r),
            self.wf() ==> r.wf(),
    {
        library.retain();
        Face {
            face_flags: self.face_flags,
            style_flags: self.style_flags,
            ascender: self.ascender,
            descender: self.descender,
            em_size: self.em_size,
            height: self.height,
            max_advance_width: self.max_advance_width,
            max_advance_height: self.max_advance_height,
            underline_position: self.underline_position,
            underline_thickness: self.underline_thickness,
            num_faces: self.num_faces,
            num_glyphs: self.num_glyphs,
            num_charmaps: self.num_charmaps,
            family_name: clone_name(&self.family_name),
            style_name: clone_name(&self.style_name),
            postscript_name: clone_name(&self.postscript_name),
            size_metrics: self.size_metrics,
            glyph: self.glyph.duplicate(),
            charmap: crate::copy_vec(&self.charmap),
            charmaps: crate::copy_vec(&self.charmaps),
        }
    }

    /// Discard the face, releasing the library reference it held.
    pub fn discard(self, library: &mut Library)
        requires
            old(library).spec_refs() >= 1,
        ensures
            final(library).spec_handle() == old(library).spec_handle(),
            final(library).spec_refs() == old(library).spec_refs() - 1,
    {
        library.release();
    }

    /// The style flags of the face, unknown bits dropped.
    pub fn style_flags(&self) -> (r: StyleFlag)
        ensures
            r.bits == self.style_flags & (STYLE_FLAG_BOLD | STYLE_FLAG_ITALIC),
    {
        StyleFlag::from_bits_truncate(self.style_flags)
    }

    /// The face's family name, when the format provides one.
    pub fn family_name(&self) -> (r: Option<&String>)
        ensures
            match r {
                Some(s) => self.family_name == Some(*s),
                None => self.family_name is None,
            },
    {
        self.family_name.as_ref()
    }

    /// The face's style name, when the format provides one.
    pub fn style_name(&self) -> (r: Option<&String>)
        ensures
            match r {
                Some(s) => self.style_name == Some(*s),
                None => self.style_name is None,
            },
    {
        self.style_name.as_ref()
    }

    /// The face's PostScript name, when the format provides one.
    pub fn postscript_name(&self) -> (r: Option<&String>)
        ensures
            match r {
                Some(s) => self.postscript_name == Some(*s),
                None => self.postscript_name is None,
            },
    {
        self.postscript_name.as_ref()
    }

    /// The metrics of the active size, once a size has been set.
    pub fn size_metrics(&self) -> (r: Option<SizeMetrics>)
        ensures
            r == self.size_metrics,
    {
        self.size_metrics
    }
}

/// A copy of an optional name.
fn clone_name(s: &Option<String>) -> (r: Option<String>)
    ensures
        r == *s,
{
    match s {
        Some(v) => Some(v.clone()),
        None => None,
    }
}

/// An iterator over the characters mapped by a face, yielding each
/// `(character code, glyph index)` pair in increasing code order.
pub struct CharIterator<'a> {
    face: &'a Face,
    pos: usize,
}

impl<'a> CharIterator<'a> {
    /// The face being walked.
    pub closed spec fn spec_face(self) -> Face {
        *self.face
    }

    /// How many pairs have been yielded so far.
    pub closed spec fn position(self) -> int {
        self.pos as int
    }

    /// The iterator's internal invariant.
    pub closed spec fn wf(self) -> bool {
        &&& self.face.wf()
        &&& self.pos <= self.face.charmap@.len()
    }

    /// Start walking a face's character map from its first mapped code.
    pub fn new(face: &'a Face) -> (r: CharIterator<'a>)
        requires
            face.wf(),
        ensures
            r.wf(),
            r.spec_face() == *face,
            r.position() == 0,
    {
        CharIterator { face, pos: 0 }
    }

    /// Yield the next mapped `(character code, glyph index)` pair, or
    /// `None` once every mapped character has been yielded.  A yielded
    /// glyph index is never zero.
    pub fn next(&mut self) -> (r: Option<(usize, u32)>)
        requires
            old(self).wf(),
        ensures
            final(self).wf(),
            final(self).spec_face() == old(self).spec_face(),
            match r {
                None => {
                    &&& old(self).position() == old(self).spec_face().charmap@.len()
                    &&& *final(self) == *old(self)
                },
                Some(pair) => {
                    &&& old(self).position() < old(self).spec_face().charmap@.len()
                    &&& pair == old(self).spec_face().charmap@[old(self).position()]
                    &&& pair.1 != 0
                    &&& final(self).position() == old(self).position() + 1
                },
            },
    {
        if self.pos >= self.face.charmap.len() {
            None
        } else {
            let pair = self.face.charmap[self.pos];
            self.pos = self.pos + 1;
            Some(pair)
        }
    }
}

} // verus!
