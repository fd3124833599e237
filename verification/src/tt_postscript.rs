//! The PostScript table of an SFNT font.

use vstd::prelude::*;

verus! {

/// The PostScript table of an SFNT font.
#[derive(Clone, Copy, PartialEq, Eq, Structural, Debug)]
pub struct TrueTypePostscriptTable {
    /// The format of the table, in 16.16 fixed point.
    pub format_type: i64,
    /// The italic angle in degrees, in 16.16 fixed point, counter-clockwise from vertical.
    pub italic_angle: i64,
    /// The suggested underline position, from the baseline down.
    pub underline_position: i16,
    /// The suggested underline thickness.
    pub underline_thickness: i16,
    /// Nonzero exactly when the font is monospaced.
    pub is_fixed_pitch: u64,
    /// The minimum memory a Type 42 download needs.
    pub min_mem_type_42: u64,
    /// The maximum memory a Type 42 download needs.
    pub max_mem_type_42: u64,
    /// The minimum memory a Type 1 download needs.
    pub min_mem_type_1: u64,
    /// The maximum memory a Type 1 download needs.
    pub max_mem_type_1: u64,
}

impl TrueTypePostscriptTable {
    /// The format of the table, in 16.16 fixed point.
    pub fn format_type(&self) -> (r: i64)
        ensures
            r == self.format_type,
    {
        self.format_type
    }

    /// The italic angle in degrees, in 16.16 fixed point, counter-clockwise from vertical.
    pub fn italic_angle(&self) -> (r: i64)
        ensures
            r == self.italic_angle,
    {
        self.italic_angle
    }

    /// The suggested underline position, from the baseline down.
    pub fn underline_position(&self) -> (r: i16)
        ensures
            r == self.underline_position,
    {
        self.underline_position
    }

    /// The suggested underline thickness.
    pub fn underline_thickness(&self) -> (r: i16)
        ensures
            r == self.underline_thickness,
    {
        self.underline_thickness
    }

    /// Nonzero exactly when the font is monospaced.
    pub fn is_fixed_pitch(&self) -> (r: u64)
        ensures
            r == self.is_fixed_pitch,
    {
        self.is_fixed_pitch
    }

    /// The minimum memory a Type 42 download needs.
    pub fn min_mem_type_42(&self) -> (r: u64)
        ensures
            r == self.min_mem_type_42,
    {
        self.min_mem_type_42
    }

    /// The maximum memory a Type 42 download needs.
    pub fn max_mem_type_42(&self) -> (r: u64)
        ensures
            r == self.max_mem_type_42,
    {
        self.max_mem_type_42
    }

    /// The minimum memory a Type 1 download needs.
    pub fn min_mem_type_1(&self) -> (r: u64)
        ensures
            r == self.min_mem_type_1,
    {
        self.min_mem_type_1
    }

    /// The maximum memory a Type 1 download needs.
    pub fn max_mem_type_1(&self) -> (r: u64)
        ensures
            r == self.max_mem_type_1,
    {
        self.max_mem_type_1
    }

}

} // verus!
