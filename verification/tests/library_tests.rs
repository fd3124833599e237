use freetype::glyph::Glyph;
use freetype::library::{check_path, LcdFilter, Library};
use freetype::stroker::{Stroker, StrokerLineCap, StrokerLineJoin};
use freetype::{Error, Vector};

#[test]
fn a_fresh_library_holds_one_reference() {
    let library = Library::init(0x1000);
    assert_eq!(library.references(), 1);
    assert_eq!(library.raw(), 0x1000);
}

#[test]
fn dependent_wrappers_acquire_and_release() {
    let mut library = Library::init(7);
    let glyph = Glyph::new(0, Vector { x: 640, y: 0 }, &mut library);
    assert_eq!(library.references(), 2);
    glyph.discard(&mut library);
    assert_eq!(library.references(), 1);
}

#[test]
fn clones_dropped_in_any_order_restore_the_count() {
    let mut library = Library::init(7);
    let glyph = Glyph::new(0, Vector { x: 640, y: 0 }, &mut library);
    let before = library.references();

    let a = glyph.clone_with(&mut library);
    let b = glyph.clone_with(&mut library);
    let c = glyph.clone_with(&mut library);
    let d = glyph.clone_with(&mut library);
    assert_eq!(library.references(), before + 4);

    // Drop the clones in neither creation nor reverse-creation order.
    c.discard(&mut library);
    a.discard(&mut library);
    d.discard(&mut library);
    b.discard(&mut library);
    assert_eq!(library.references(), before);

    glyph.discard(&mut library);
    assert_eq!(library.references(), 1);
}

#[test]
fn stroker_keeps_its_parameters_and_library_reference() {
    let mut library = Library::init(9);
    let mut stroker = Stroker::new(0x2000, &mut library);
    assert_eq!(library.references(), 2);
    assert_eq!(stroker.raw_stroker(), 0x2000);

    stroker.set(
        128,
        StrokerLineCap::Round,
        StrokerLineJoin::MiterFixed,
        4 << 16,
    );
    assert_eq!(stroker.raw_stroker(), 0x2000);

    stroker.discard(&mut library);
    assert_eq!(library.references(), 1);
}

#[test]
fn line_cap_and_join_codes() {
    assert_eq!(StrokerLineCap::Butt.code(), 0);
    assert_eq!(StrokerLineCap::Round.code(), 1);
    assert_eq!(StrokerLineCap::Square.code(), 2);
    assert_eq!(StrokerLineJoin::Round.code(), 0);
    assert_eq!(StrokerLineJoin::Bevel.code(), 1);
    assert_eq!(StrokerLineJoin::MiterVariable.code(), 2);
    assert_eq!(StrokerLineJoin::MiterFixed.code(), 3);
}

#[test]
fn lcd_filter_codes() {
    assert_eq!(LcdFilter::LcdFilterNone.code(), 0);
    assert_eq!(LcdFilter::LcdFilterDefault.code(), 1);
    assert_eq!(LcdFilter::LcdFilterLight.code(), 2);
    assert_eq!(LcdFilter::LcdFilterLegacy.code(), 16);
}

#[test]
fn paths_with_a_nul_byte_are_rejected() {
    assert!(check_path(&b"/fonts/FiraSans-Regular.ttf".to_vec()).is_ok());
    assert!(check_path(&Vec::new()).is_ok());
    assert_eq!(
        check_path(&b"/fonts/bad\0name.ttf".to_vec()).unwrap_err(),
        Error::InvalidPath
    );
}
