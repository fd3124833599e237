//! Render modes for converting a glyph image to a bitmap.

use vstd::prelude::*;

verus! {

/// How a glyph outline is rasterized to a bitmap.
#[derive(Clone, Copy, PartialEq, Eq, Structural, Debug)]
pub enum RenderMode {
    /// 8-bit anti-aliased coverage.
    Normal,
    /// A lighter hinting algorithm with 8-bit coverage.
    Light,
    /// 1-bit monochrome.
    Mono,
    /// Horizontally decimated coverage for LCD displays.
    Lcd,
    /// Vertically decimated coverage for rotated LCD displays.
    LcdV,
    /// One past the last published mode.
    Max,
}

/// The numeric code of a render mode, as the font engine numbers them.
pub open spec fn render_mode_code(m: RenderMode) -> u32 {
    match m {
        RenderMode::Normal => 0,
        RenderMode::Light => 1,
        RenderMode::Mono => 2,
        RenderMode::Lcd => 3,
        RenderMode::LcdV => 4,
        RenderMode::Max => 5,
    }
}

impl RenderMode {
    /// The numeric code of this render mode.
    pub fn code(&self) -> (r: u32)
        ensures
            r == render_mode_code(*self),
    {
        match self {
            RenderMode::Normal => 0,
            RenderMode::Light => 1,
            RenderMode::Mono => 2,
            RenderMode::Lcd => 3,
            RenderMode::LcdV => 4,
            RenderMode::Max => 5,
        }
    }
}

} // verus!
