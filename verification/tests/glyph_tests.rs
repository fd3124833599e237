use freetype::bitmap::Bitmap;
use freetype::bitmap_glyph::BitmapGlyph;
use freetype::glyph::{Glyph, GLYPH_FORMAT_BITMAP, GLYPH_FORMAT_OUTLINE};
use freetype::glyph_slot::{GlyphSlot, SubGlyphInfo};
use freetype::library::Library;
use freetype::outline::{Curve, Outline, TAG_ONCURVE};
use freetype::render_mode::RenderMode;
use freetype::tt_os2::TrueTypeOS2Table;
use freetype::tt_postscript::TrueTypePostscriptTable;
use freetype::{GlyphMetrics, Matrix, Vector};

fn zero_metrics() -> GlyphMetrics {
    GlyphMetrics {
        width: 0,
        height: 0,
        hori_bearing_x: 0,
        hori_bearing_y: 0,
        hori_advance: 0,
        vert_bearing_x: 0,
        vert_bearing_y: 0,
        vert_advance: 0,
    }
}

#[test]
fn glyph_carries_format_and_advance() {
    let mut library = Library::init(1);
    let glyph = Glyph::new(
        GLYPH_FORMAT_OUTLINE,
        Vector { x: 1024, y: -64 },
        &mut library,
    );
    assert_eq!(glyph.format(), GLYPH_FORMAT_OUTLINE);
    assert_eq!(glyph.advance_x(), 1024);
    assert_eq!(glyph.advance_y(), -64);
    glyph.discard(&mut library);
}

#[test]
fn slot_with_outline_format_exposes_the_outline() {
    let outline = Outline::new(
        vec![Vector { x: 0, y: 0 }, Vector { x: 5, y: 5 }],
        vec![TAG_ONCURVE, TAG_ONCURVE],
        vec![1i16],
    )
    .unwrap();
    let slot = GlyphSlot::new(
        GLYPH_FORMAT_OUTLINE,
        Some(outline),
        Bitmap::new(0, 0, 0, 0, vec![]).unwrap(),
        3,
        9,
        Vector { x: 320, y: 0 },
        65536,
        0,
        zero_metrics(),
    );
    let outline = slot.outline().expect("outline image");
    let mut contours = outline.contours_iter();
    let mut contour = contours.next().unwrap();
    assert_eq!(contour.next(), Some(Curve::Line(Vector { x: 5, y: 5 })));
    assert_eq!(slot.bitmap_left(), 3);
    assert_eq!(slot.bitmap_top(), 9);
    assert_eq!(slot.advance(), Vector { x: 320, y: 0 });
    assert_eq!(slot.linear_hori_advance(), 65536);
    assert_eq!(slot.linear_vert_advance(), 0);
    assert_eq!(slot.metrics(), zero_metrics());
}

#[test]
fn slot_without_outline_format_has_no_outline() {
    let slot = GlyphSlot::new(
        GLYPH_FORMAT_BITMAP,
        None,
        Bitmap::new(2, 2, 2, 2, vec![9, 9, 9, 9]).unwrap(),
        0,
        0,
        Vector { x: 0, y: 0 },
        0,
        0,
        zero_metrics(),
    );
    assert!(slot.outline().is_none());
    assert_eq!(*slot.bitmap().buffer(), vec![9, 9, 9, 9]);
}

#[test]
fn subglyph_info_defaults_to_zero() {
    let info = SubGlyphInfo::default();
    assert_eq!(info.index, 0);
    assert_eq!(info.flags, 0);
    assert_eq!(info.arg1, 0);
    assert_eq!(info.arg2, 0);
    assert_eq!(
        info.transform,
        Matrix {
            xx: 0,
            xy: 0,
            yx: 0,
            yy: 0
        }
    );
}

#[test]
fn bitmap_glyph_keeps_placement_and_reference() {
    let mut library = Library::init(4);
    let glyph = BitmapGlyph::new(
        -2,
        14,
        Bitmap::new(3, 1, 3, 2, vec![0, 128, 255]).unwrap(),
        &mut library,
    );
    assert_eq!(library.references(), 2);
    assert_eq!(glyph.left(), -2);
    assert_eq!(glyph.top(), 14);
    assert_eq!(*glyph.bitmap().buffer(), vec![0, 128, 255]);

    let copy = glyph.clone_with(&mut library);
    assert_eq!(library.references(), 3);
    assert_eq!(copy.left(), -2);
    assert_eq!(*copy.bitmap().buffer(), vec![0, 128, 255]);

    copy.discard(&mut library);
    glyph.discard(&mut library);
    assert_eq!(library.references(), 1);
}

#[test]
fn render_mode_codes() {
    assert_eq!(RenderMode::Normal.code(), 0);
    assert_eq!(RenderMode::Light.code(), 1);
    assert_eq!(RenderMode::Mono.code(), 2);
    assert_eq!(RenderMode::Lcd.code(), 3);
    assert_eq!(RenderMode::LcdV.code(), 4);
    assert_eq!(RenderMode::Max.code(), 5);
}

#[test]
fn os2_table_reports_line_metrics() {
    let table = TrueTypeOS2Table {
        version: 4,
        avg_char_width: 478,
        us_weight_class: 400,
        us_width_class: 5,
        fs_type: 0,
        y_subscript_x_size: 650,
        y_subscript_y_size: 600,
        y_subscript_x_offset: 0,
        y_subscript_y_offset: 75,
        y_superscript_x_size: 650,
        y_superscript_y_size: 600,
        y_superscript_x_offset: 0,
        y_superscript_y_offset: 350,
        y_strikeout_size: 50,
        y_strikeout_position: 250,
        s_family_class: 0,
        fs_selection: 64,
        s_typo_ascender: 785,
        s_typo_descender: -215,
        s_typo_line_gap: 400,
        x_height: 500,
    };
    assert!(table.is_valid());
    assert_eq!(table.s_typo_ascender(), 785);
    assert_eq!(table.s_typo_descender(), -215);
    assert_eq!(table.s_typo_line_gap(), 400);
    assert_eq!(table.us_weight_class(), 400);
    assert_eq!(table.x_height(), 500);

    let absent = TrueTypeOS2Table { version: 0xffff, ..table };
    assert!(!absent.is_valid());
}

#[test]
fn postscript_table_reports_its_fields() {
    let table = TrueTypePostscriptTable {
        format_type: 0x30000,
        italic_angle: -12 << 16,
        underline_position: -100,
        underline_thickness: 50,
        is_fixed_pitch: 0,
        min_mem_type_42: 0,
        max_mem_type_42: 0,
        min_mem_type_1: 0,
        max_mem_type_1: 0,
    };
    assert_eq!(table.format_type(), 0x30000);
    assert_eq!(table.italic_angle(), -12 << 16);
    assert_eq!(table.underline_position(), -100);
    assert_eq!(table.underline_thickness(), 50);
    assert_eq!(table.is_fixed_pitch(), 0);
}
