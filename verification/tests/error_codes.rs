use freetype::error::{from_ftret, Error};

#[test]
fn zero_code_is_success() {
    assert_eq!(from_ftret(0), Ok(()));
}

#[test]
fn nonzero_code_is_the_matching_error() {
    assert_eq!(from_ftret(0x01), Err(Error::CannotOpenResource));
    assert_eq!(from_ftret(0x02), Err(Error::UnknownFileFormat));
    assert_eq!(from_ftret(0x06), Err(Error::InvalidArgument));
    assert_eq!(from_ftret(0x10), Err(Error::InvalidGlyphIndex));
    assert_eq!(from_ftret(0x23), Err(Error::InvalidFaceHandle));
    assert_eq!(from_ftret(0x40), Err(Error::OutOfMemory));
    assert_eq!(from_ftret(0xBA), Err(Error::CorruptedFontGlyphs));
}

#[test]
fn codes_outside_the_table_are_unknown() {
    assert_eq!(from_ftret(0x0D), Err(Error::Unknown(0x0D)));
    assert_eq!(from_ftret(0xBB), Err(Error::Unknown(0xBB)));
    assert_eq!(from_ftret(-1), Err(Error::Unknown(-1)));
    assert_eq!(Error::from_code(0), Error::Unknown(0));
}

#[test]
fn every_code_round_trips() {
    for code in -300..300 {
        let e = Error::from_code(code);
        assert_eq!(e.code(), code);
        assert_eq!(Error::from_code(e.code()), e);
    }
}

#[test]
fn failure_keeps_its_code() {
    match from_ftret(0x97) {
        Err(e) => {
            assert_eq!(e, Error::InvalidPpem);
            assert_eq!(e.code(), 0x97);
        }
        Ok(()) => panic!("a failing code read as success"),
    }
}

#[test]
fn every_listed_error_has_its_freetype_code() {
    let table = [
        (Error::CannotOpenResource, 0x01), (Error::UnknownFileFormat, 0x02),
        (Error::InvalidFileFormat, 0x03), (Error::InvalidVersion, 0x04),
        (Error::LowerModuleVersion, 0x05), (Error::InvalidArgument, 0x06),
        (Error::UnimplementedFeature, 0x07), (Error::InvalidTable, 0x08),
        (Error::InvalidOffset, 0x09), (Error::ArrayTooLarge, 0x0A),
        (Error::MissingModule, 0x0B), (Error::MissingProperty, 0x0C),
        (Error::InvalidGlyphIndex, 0x10), (Error::InvalidCharacterCode, 0x11),
        (Error::InvalidGlyphFormat, 0x12), (Error::CannotRenderGlyph, 0x13),
        (Error::InvalidOutline, 0x14), (Error::InvalidComposite, 0x15),
        (Error::TooManyHints, 0x16), (Error::InvalidPixelSize, 0x17),
        (Error::InvalidSvgDocument, 0x18), (Error::InvalidHandle, 0x20),
        (Error::InvalidLibraryHandle, 0x21), (Error::InvalidDriverHandle, 0x22),
        (Error::InvalidFaceHandle, 0x23), (Error::InvalidSizeHandle, 0x24),
        (Error::InvalidSlotHandle, 0x25), (Error::InvalidCharMapHandle, 0x26),
        (Error::InvalidCacheHandle, 0x27), (Error::InvalidStreamHandle, 0x28),
        (Error::TooManyDrivers, 0x30), (Error::TooManyExtensions, 0x31),
        (Error::OutOfMemory, 0x40), (Error::UnlistedObject, 0x41),
        (Error::CannotOpenStream, 0x51), (Error::InvalidStreamSeek, 0x52),
        (Error::InvalidStreamSkip, 0x53), (Error::InvalidStreamRead, 0x54),
        (Error::InvalidStreamOperation, 0x55), (Error::InvalidFrameOperation, 0x56),
        (Error::NestedFrameAccess, 0x57), (Error::InvalidFrameRead, 0x58),
        (Error::RasterUninitialized, 0x60), (Error::RasterCorrupted, 0x61),
        (Error::RasterOverflow, 0x62), (Error::RasterNegativeHeight, 0x63),
        (Error::TooManyCaches, 0x70), (Error::InvalidOpcode, 0x80),
        (Error::TooFewArguments, 0x81), (Error::StackOverflow, 0x82),
        (Error::CodeOverflow, 0x83), (Error::BadArgument, 0x84),
        (Error::DivideByZero, 0x85), (Error::InvalidReference, 0x86),
        (Error::DebugOpcode, 0x87), (Error::EndfInExecStream, 0x88),
        (Error::NestedDefs, 0x89), (Error::InvalidCoderange, 0x8A),
        (Error::ExecutionTooLong, 0x8B), (Error::TooManyFunctionDefs, 0x8C),
        (Error::TooManyInstructionDefs, 0x8D), (Error::TableMissing, 0x8E),
        (Error::HorizHeaderMissing, 0x8F), (Error::LocationsMissing, 0x90),
        (Error::NameTableMissing, 0x91), (Error::CmapTableMissing, 0x92),
        (Error::HmtxTableMissing, 0x93), (Error::PostTableMissing, 0x94),
        (Error::InvalidHorizMetrics, 0x95), (Error::InvalidCharMapFormat, 0x96),
        (Error::InvalidPpem, 0x97), (Error::InvalidVertMetrics, 0x98),
        (Error::CouldNotFindContext, 0x99), (Error::InvalidPostTableFormat, 0x9A),
        (Error::InvalidPostTable, 0x9B), (Error::DefInGlyfBytecode, 0x9C),
        (Error::MissingBitmap, 0x9D), (Error::MissingSvgHooks, 0x9E),
        (Error::SyntaxError, 0xA0), (Error::StackUnderflow, 0xA1),
        (Error::Ignore, 0xA2), (Error::NoUnicodeGlyphName, 0xA3),
        (Error::GlyphTooBig, 0xA4), (Error::MissingStartfontField, 0xB0),
        (Error::MissingFontField, 0xB1), (Error::MissingSizeField, 0xB2),
        (Error::MissingFontboundingboxField, 0xB3), (Error::MissingCharsField, 0xB4),
        (Error::MissingStartcharField, 0xB5), (Error::MissingEncodingField, 0xB6),
        (Error::MissingBbxField, 0xB7), (Error::BbxTooBig, 0xB8),
        (Error::CorruptedFontHeader, 0xB9), (Error::CorruptedFontGlyphs, 0xBA),
    ];
    assert_eq!(table.len(), 94);
    for (e, code) in table {
        assert_eq!(e.code(), code);
        assert_eq!(Error::from_code(code), e);
        assert_eq!(from_ftret(code), Err(e));
    }
}
