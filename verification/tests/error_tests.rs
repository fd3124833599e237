use freetype::Error;

#[test]
fn known_codes_map_to_their_kind() {
    assert_eq!(Error::from(1), Error::CannotOpenResource);
    assert_eq!(Error::from(2), Error::UnknownFileFormat);
    assert_eq!(Error::from(6), Error::InvalidArgument);
    assert_eq!(Error::from(7), Error::UnimplementedFeature);
    assert_eq!(Error::from(16), Error::InvalidGlyphIndex);
    assert_eq!(Error::from(20), Error::InvalidOutline);
    assert_eq!(Error::from(23), Error::InvalidPixelSize);
    assert_eq!(Error::from(35), Error::InvalidFaceHandle);
    assert_eq!(Error::from(64), Error::OutOfMemory);
    assert_eq!(Error::from(81), Error::CannotOpenStream);
    assert_eq!(Error::from(98), Error::RasterOverflow);
    assert_eq!(Error::from(130), Error::StackOverflow);
    assert_eq!(Error::from(142), Error::TableMissing);
    assert_eq!(Error::from(146), Error::CMapTableMissing);
    assert_eq!(Error::from(163), Error::NoUnicodeGlyphName);
    assert_eq!(Error::from(186), Error::CorruptedFontGlyphs);
}

#[test]
fn unmapped_codes_fall_back_to_unknown() {
    assert_eq!(Error::from(0), Error::UnknownError);
    assert_eq!(Error::from(13), Error::UnknownError);
    assert_eq!(Error::from(187), Error::UnknownError);
    assert_eq!(Error::from(9999), Error::UnknownError);
    assert_eq!(Error::from(-1), Error::UnknownError);
}

#[test]
fn crate_raised_kinds_are_distinct() {
    assert_ne!(Error::InvalidPath, Error::UnknownError);
    assert_ne!(Error::UnexpectedPixelMode, Error::UnknownError);
    assert_ne!(Error::InvalidPath, Error::UnexpectedPixelMode);
}
