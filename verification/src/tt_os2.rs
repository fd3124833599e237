//! The OS/2 table of an SFNT font: weight, width and metric hints.

use vstd::prelude::*;

verus! {

/// The OS/2 table of an SFNT font.  A face whose table is absent, or whose
/// version reads as the all-ones marker, exposes no such value.
#[derive(Clone, Copy, PartialEq, Eq, Structural, Debug)]
pub struct TrueTypeOS2Table {
    /// The version number of the table.
    pub version: u16,
    /// The arithmetic average advance width of lowercase letters.
    pub avg_char_width: i16,
    /// The visual weight class of the face.
    pub us_weight_class: u16,
    /// The relative change of aspect ratio from the normal width.
    pub us_width_class: u16,
    /// The embedding licensing rights bits.
    pub fs_type: u16,
    /// The recommended horizontal size of subscripts.
    pub y_subscript_x_size: i16,
    /// The recommended vertical size of subscripts.
    pub y_subscript_y_size: i16,
    /// The recommended horizontal offset of subscripts.
    pub y_subscript_x_offset: i16,
    /// The recommended vertical offset of subscripts, below the baseline.
    pub y_subscript_y_offset: i16,
    /// The recommended horizontal size of superscripts.
    pub y_superscript_x_size: i16,
    /// The recommended vertical size of superscripts.
    pub y_superscript_y_size: i16,
    /// The recommended horizontal offset of superscripts.
    pub y_superscript_x_offset: i16,
    /// The recommended vertical offset of superscripts, above the baseline.
    pub y_superscript_y_offset: i16,
    /// The thickness of the strikeout stroke.
    pub y_strikeout_size: i16,
    /// The position of the strikeout stroke above the baseline.
    pub y_strikeout_position: i16,
    /// The font family class and subclass.
    pub s_family_class: i16,
    /// The font selection bits.
    pub fs_selection: u16,
    /// The typographic ascender of the face.
    pub s_typo_ascender: i16,
    /// The typographic descender of the face, negative below the baseline.
    pub s_typo_descender: i16,
    /// The typographic line gap of the face.
    pub s_typo_line_gap: i16,
    /// The height of lowercase letters.
    pub x_height: i16,
}

impl TrueTypeOS2Table {
    /// Whether the table is usable: a face whose table reads the all-ones
    /// version marker exposes no OS/2 data.
    pub fn is_valid(&self) -> (r: bool)
        ensures
            r == (self.version != 0xffff),
    {
        self.version != 0xffff
    }

    /// The version number of the table.
    pub fn version(&self) -> (r: u16)
        ensures
            r == self.version,
    {
        self.version
    }

    /// The arithmetic average advance width of lowercase letters.
    pub fn avg_char_width(&self) -> (r: i16)
        ensures
            r == self.avg_char_width,
    {
        self.avg_char_width
    }

    /// The visual weight class of the face.
    pub fn us_weight_class(&self) -> (r: u16)
        ensures
            r == self.us_weight_class,
    {
        self.us_weight_class
    }

    /// The relative change of aspect ratio from the normal width.
    pub fn us_width_class(&self) -> (r: u16)
        ensures
            r == self.us_width_class,
    {
        self.us_width_class
    }

    /// The embedding licensing rights bits.
    pub fn fs_type(&self) -> (r: u16)
        ensures
            r == self.fs_type,
    {
        self.fs_type
    }

    /// The recommended horizontal size of subscripts.
    pub fn y_subscript_x_size(&self) -> (r: i16)
        ensures
            r == self.y_subscript_x_size,
    {
        self.y_subscript_x_size
    }

    /// The recommended vertical size of subscripts.
    pub fn y_subscript_y_size(&self) -> (r: i16)
        ensures
            r == self.y_subscript_y_size,
    {
        self.y_subscript_y_size
    }

    /// The recommended horizontal offset of subscripts.
    pub fn y_subscript_x_offset(&self) -> (r: i16)
        ensures
            r == self.y_subscript_x_offset,
    {
        self.y_subscript_x_offset
    }

    /// The recommended vertical offset of subscripts, below the baseline.
    pub fn y_subscript_y_offset(&self) -> (r: i16)
        ensures
            r == self.y_subscript_y_offset,
    {
        self.y_subscript_y_offset
    }

    /// The recommended horizontal size of superscripts.
    pub fn y_superscript_x_size(&self) -> (r: i16)
        ensures
            r == self.y_superscript_x_size,
    {
        self.y_superscript_x_size
    }

    /// The recommended vertical size of superscripts.
    pub fn y_superscript_y_size(&self) -> (r: i16)
        ensures
            r == self.y_superscript_y_size,
    {
        self.y_superscript_y_size
    }

    /// The recommended horizontal offset of superscripts.
    pub fn y_superscript_x_offset(&self) -> (r: i16)
        ensures
            r == self.y_superscript_x_offset,
    {
        self.y_superscript_x_offset
    }

    /// The recommended vertical offset of superscripts, above the baseline.
    pub fn y_superscript_y_offset(&self) -> (r: i16)
        ensures
            r == self.y_superscript_y_offset,
    {
        self.y_superscript_y_offset
    }

    /// The thickness of the strikeout stroke.
    pub fn y_strikeout_size(&self) -> (r: i16)
        ensures
            r == self.y_strikeout_size,
    {
        self.y_strikeout_size
    }

    /// The position of the strikeout stroke above the baseline.
    pub fn y_strikeout_position(&self) -> (r: i16)
        ensures
            r == self.y_strikeout_position,
    {
        self.y_strikeout_position
    }

    /// The font family class and subclass.
    pub fn s_family_class(&self) -> (r: i16)
        ensures
            r == self.s_family_class,
    {
        self.s_family_class
    }

    /// The font selection bits.
    pub fn fs_selection(&self) -> (r: u16)
        ensures
            r == self.fs_selection,
    {
        self.fs_selection
    }

    /// The typographic ascender of the face.
    pub fn s_typo_ascender(&self) -> (r: i16)
        ensures
            r == self.s_typo_ascender,
    {
        self.s_typo_ascender
    }

    /// The typographic descender of the face, negative below the baseline.
    pub fn s_typo_descender(&self) -> (r: i16)
        ensures
            r == self.s_typo_descender,
    {
        self.s_typo_descender
    }

    /// The typographic line gap of the face.
    pub fn s_typo_line_gap(&self) -> (r: i16)
        ensures
            r == self.s_typo_line_gap,
    {
        self.s_typo_line_gap
    }

    /// The height of lowercase letters.
    pub fn x_height(&self) -> (r: i16)
        ensures
            r == self.x_height,
    {
        self.x_height
    }

}

} // verus!
