use freetype::bitmap::Bitmap;
use freetype::charmap::CharMap;
use freetype::face::{
    Face, KerningMode, LoadFlag, StyleFlag, FACE_FLAG_HORIZONTAL, FACE_FLAG_KERNING,
    FACE_FLAG_SCALABLE, STYLE_FLAG_BOLD, STYLE_FLAG_ITALIC,
};
use freetype::glyph_slot::GlyphSlot;
use freetype::{GlyphMetrics, Vector};

fn empty_slot() -> GlyphSlot {
    GlyphSlot::new(
        0,
        None,
        Bitmap::new(0, 0, 0, 0, vec![]).unwrap(),
        0,
        0,
        Vector { x: 0, y: 0 },
        0,
        0,
        GlyphMetrics {
            width: 0,
            height: 0,
            hori_bearing_x: 0,
            hori_bearing_y: 0,
            hori_advance: 0,
            vert_bearing_x: 0,
            vert_bearing_y: 0,
            vert_advance: 0,
        },
    )
}

fn sample_face() -> Face {
    Face {
        face_flags: FACE_FLAG_SCALABLE | FACE_FLAG_HORIZONTAL | FACE_FLAG_KERNING,
        style_flags: STYLE_FLAG_BOLD | 0x40,
        ascender: 785,
        descender: -215,
        em_size: 1000,
        height: 1170,
        max_advance_width: 1200,
        max_advance_height: 1170,
        underline_position: -100,
        underline_thickness: 50,
        num_faces: 1,
        num_glyphs: 260,
        num_charmaps: 2,
        family_name: Some(String::from("Fira Sans")),
        style_name: Some(String::from("Regular")),
        postscript_name: None,
        size_metrics: None,
        glyph: empty_slot(),
        charmap: vec![(65, 36), (66, 37), (97, 68)],
        charmaps: vec![CharMap::new(0, 3, 1970170211), CharMap::new(3, 1, 1970170211)],
    }
}

#[test]
fn load_flag_constructors_carry_their_bits() {
    assert_eq!(LoadFlag::default_flags().bits(), 0);
    assert_eq!(LoadFlag::no_scale().bits(), 0x1);
    assert_eq!(LoadFlag::render().bits(), 0x4);
    assert_eq!(LoadFlag::ignore_global_advance_width().bits(), 0x200);
    assert_eq!(LoadFlag::no_autohint().bits(), 0x8000);
    assert_eq!(LoadFlag::target_lcd().bits(), 0x30000);
    assert_eq!(LoadFlag::color().bits(), 0x100000);
}

#[test]
fn load_flag_sets_combine_and_test() {
    let combined = LoadFlag::render().union(LoadFlag::no_hinting());
    assert_eq!(combined.bits(), 0x6);
    assert!(combined.contains(LoadFlag::render()));
    assert!(combined.contains(LoadFlag::no_hinting()));
    assert!(!combined.contains(LoadFlag::no_scale()));
    assert!(combined.contains(LoadFlag::empty()));
}

#[test]
fn style_flags_truncate_unknown_bits() {
    let styled = StyleFlag::from_bits_truncate(0xFF);
    assert_eq!(styled.bits(), STYLE_FLAG_BOLD | STYLE_FLAG_ITALIC);
    assert!(styled.contains(StyleFlag::bold()));
    assert!(styled.contains(StyleFlag::italic()));
    assert_eq!(StyleFlag::from_bits_truncate(0x40).bits(), 0);
}

#[test]
fn kerning_mode_codes() {
    assert_eq!(KerningMode::KerningDefault.code(), 0);
    assert_eq!(KerningMode::KerningUnfitted.code(), 1);
    assert_eq!(KerningMode::KerningUnscaled.code(), 2);
}

#[test]
fn face_flag_tests_read_the_flag_bits() {
    let face = sample_face();
    assert!(face.is_scalable());
    assert!(face.has_horizontal());
    assert!(face.has_kerning());
    assert!(!face.has_vertical());
    assert!(!face.is_sfnt());
    assert!(!face.is_fixed_width());
    assert!(!face.has_fixed_sizes());
    assert!(!face.has_glyph_names());
    assert!(!face.is_cid_keyed());
    assert!(!face.is_tricky());
    assert!(!face.has_color());
}

#[test]
fn face_metrics_and_names_come_back_unchanged() {
    let face = sample_face();
    assert_eq!(face.ascender(), 785);
    assert_eq!(face.descender(), -215);
    assert_eq!(face.em_size(), 1000);
    assert_eq!(face.height(), 1170);
    assert_eq!(face.max_advance_width(), 1200);
    assert_eq!(face.max_advance_height(), 1170);
    assert_eq!(face.underline_position(), -100);
    assert_eq!(face.underline_thickness(), 50);
    assert_eq!(face.num_faces(), 1);
    assert_eq!(face.num_glyphs(), 260);
    assert_eq!(face.num_charmaps(), 2);
    assert_eq!(face.family_name(), Some(&String::from("Fira Sans")));
    assert_eq!(face.style_name(), Some(&String::from("Regular")));
    assert_eq!(face.postscript_name(), None);
    assert!(face.size_metrics().is_none());
    // Unknown style bits are dropped; the bold bit remains.
    assert_eq!(face.style_flags().bits(), STYLE_FLAG_BOLD);
}

#[test]
fn chars_yield_the_map_in_order() {
    let face = sample_face();
    let mut chars = face.chars();
    assert_eq!(chars.next(), Some((65, 36)));
    assert_eq!(chars.next(), Some((66, 37)));
    assert_eq!(chars.next(), Some((97, 68)));
    assert_eq!(chars.next(), None);
    assert_eq!(chars.next(), None);
}

#[test]
fn char_index_lookup_finds_mapped_codes_only() {
    let face = sample_face();
    assert_eq!(face.get_char_index(65), Some(36));
    assert_eq!(face.get_char_index(97), Some(68));
    assert_eq!(face.get_char_index(98), None);
}

#[test]
fn charmap_descriptors_are_indexed() {
    let face = sample_face();
    let unicode = face.get_charmap(0);
    assert_eq!(unicode.platform_id(), 0);
    assert_eq!(unicode.encoding_id(), 3);
    assert_eq!(unicode.encoding(), 1970170211);
    let windows = face.get_charmap(1);
    assert_eq!(windows.platform_id(), 3);
}

#[test]
fn face_clones_restore_the_library_count_whatever_the_drop_order() {
    let mut library = freetype::Library::init(3);
    let face = sample_face();
    let before = library.references();

    let a = face.clone_with(&mut library);
    let b = face.clone_with(&mut library);
    let c = a.clone_with(&mut library);
    assert_eq!(library.references(), before + 3);
    assert_eq!(a.family_name(), Some(&String::from("Fira Sans")));
    assert_eq!(c.get_char_index(66), Some(37));

    a.discard(&mut library);
    c.discard(&mut library);
    b.discard(&mut library);
    assert_eq!(library.references(), before);
}

#[test]
fn glyph_slot_accessor_returns_the_slot() {
    let face = sample_face();
    assert_eq!(face.glyph().bitmap_left(), 0);
    assert_eq!(face.glyph().advance(), Vector { x: 0, y: 0 });
}
