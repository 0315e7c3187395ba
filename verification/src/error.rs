use vstd::prelude::*;

verus! {

/// An error reported by FreeType, one variant per error code of FreeType's
/// error table; `Unknown` carries a code that the table does not list.
#[derive(Debug, Clone, Copy, PartialEq, Eq, Structural)]
pub enum Error {
    CannotOpenResource,
    UnknownFileFormat,
    InvalidFileFormat,
    InvalidVersion,
    LowerModuleVersion,
    InvalidArgument,
    UnimplementedFeature,
    InvalidTable,
    InvalidOffset,
    ArrayTooLarge,
    MissingModule,
    MissingProperty,
    InvalidGlyphIndex,
    InvalidCharacterCode,
    InvalidGlyphFormat,
    CannotRenderGlyph,
    InvalidOutline,
    InvalidComposite,
    TooManyHints,
    InvalidPixelSize,
    InvalidSvgDocument,
    InvalidHandle,
    InvalidLibraryHandle,
    InvalidDriverHandle,
    InvalidFaceHandle,
    InvalidSizeHandle,
    InvalidSlotHandle,
    InvalidCharMapHandle,
    InvalidCacheHandle,
    InvalidStreamHandle,
    TooManyDrivers,
    TooManyExtensions,
    OutOfMemory,
    UnlistedObject,
    CannotOpenStream,
    InvalidStreamSeek,
    InvalidStreamSkip,
    InvalidStreamRead,
    InvalidStreamOperation,
    InvalidFrameOperation,
    NestedFrameAccess,
    InvalidFrameRead,
    RasterUninitialized,
    RasterCorrupted,
    RasterOverflow,
    RasterNegativeHeight,
    TooManyCaches,
    InvalidOpcode,
    TooFewArguments,
    StackOverflow,
    CodeOverflow,
    BadArgument,
    DivideByZero,
    InvalidReference,
    DebugOpcode,
    EndfInExecStream,
    NestedDefs,
    InvalidCoderange,
    ExecutionTooLong,
    TooManyFunctionDefs,
    TooManyInstructionDefs,
    TableMissing,
    HorizHeaderMissing,
    LocationsMissing,
    NameTableMissing,
    CmapTableMissing,
    HmtxTableMissing,
    PostTableMissing,
    InvalidHorizMetrics,
    InvalidCharMapFormat,
    InvalidPpem,
    InvalidVertMetrics,
    CouldNotFindContext,
    InvalidPostTableFormat,
    InvalidPostTable,
    DefInGlyfBytecode,
    MissingBitmap,
    MissingSvgHooks,
    SyntaxError,
    StackUnderflow,
    Ignore,
    NoUnicodeGlyphName,
    GlyphTooBig,
    MissingStartfontField,
    MissingFontField,
    MissingSizeField,
    MissingFontboundingboxField,
    MissingCharsField,
    MissingStartcharField,
    MissingEncodingField,
    MissingBbxField,
    BbxTooBig,
    CorruptedFontHeader,
    CorruptedFontGlyphs,
    Unknown(i32),
}

/// The outcome of a FreeType operation.
pub type FtResult<T> = Result<T, Error>;

/// The error that FreeType means by the code `code` (codes outside the table
/// give `Unknown`).
pub open spec fn error_for_code(code: i32) -> Error {
    match code {
        0x01 => Error::CannotOpenResource,
        0x02 => Error::UnknownFileFormat,
        0x03 => Error::InvalidFileFormat,
        0x04 => Error::InvalidVersion,
        0x05 => Error::LowerModuleVersion,
        0x06 => Error::InvalidArgument,
        0x07 => Error::UnimplementedFeature,
        0x08 => Error::InvalidTable,
        0x09 => Error::InvalidOffset,
        0x0A => Error::ArrayTooLarge,
        0x0B => Error::MissingModule,
        0x0C => Error::MissingProperty,
        0x10 => Error::InvalidGlyphIndex,
        0x11 => Error::InvalidCharacterCode,
        0x12 => Error::InvalidGlyphFormat,
        0x13 => Error::CannotRenderGlyph,
        0x14 => Error::InvalidOutline,
        0x15 => Error::InvalidComposite,
        0x16 => Error::TooManyHints,
        0x17 => Error::InvalidPixelSize,
        0x18 => Error::InvalidSvgDocument,
        0x20 => Error::InvalidHandle,
        0x21 => Error::InvalidLibraryHandle,
        0x22 => Error::InvalidDriverHandle,
        0x23 => Error::InvalidFaceHandle,
        0x24 => Error::InvalidSizeHandle,
        0x25 => Error::InvalidSlotHandle,
        0x26 => Error::InvalidCharMapHandle,
        0x27 => Error::InvalidCacheHandle,
        0x28 => Error::InvalidStreamHandle,
        0x30 => Error::TooManyDrivers,
        0x31 => Error::TooManyExtensions,
        0x40 => Error::OutOfMemory,
        0x41 => Error::UnlistedObject,
        0x51 => Error::CannotOpenStream,
        0x52 => Error::InvalidStreamSeek,
        0x53 => Error::InvalidStreamSkip,
        0x54 => Error::InvalidStreamRead,
        0x55 => Error::InvalidStreamOperation,
        0x56 => Error::InvalidFrameOperation,
        0x57 => Error::NestedFrameAccess,
        0x58 => Error::InvalidFrameRead,
        0x60 => Error::RasterUninitialized,
        0x61 => Error::RasterCorrupted,
        0x62 => Error::RasterOverflow,
        0x63 => Error::RasterNegativeHeight,
        0x70 => Error::TooManyCaches,
        0x80 => Error::InvalidOpcode,
        0x81 => Error::TooFewArguments,
        0x82 => Error::StackOverflow,
        0x83 => Error::CodeOverflow,
        0x84 => Error::BadArgument,
        0x85 => Error::DivideByZero,
        0x86 => Error::InvalidReference,
        0x87 => Error::DebugOpcode,
        0x88 => Error::EndfInExecStream,
        0x89 => Error::NestedDefs,
        0x8A => Error::InvalidCoderange,
        0x8B => Error::ExecutionTooLong,
        0x8C => Error::TooManyFunctionDefs,
        0x8D => Error::TooManyInstructionDefs,
        0x8E => Error::TableMissing,
        0x8F => Error::HorizHeaderMissing,
        0x90 => Error::LocationsMissing,
        0x91 => Error::NameTableMissing,
        0x92 => Error::CmapTableMissing,
        0x93 => Error::HmtxTableMissing,
        0x94 => Error::PostTableMissing,
        0x95 => Error::InvalidHorizMetrics,
        0x96 => Error::InvalidCharMapFormat,
        0x97 => Error::InvalidPpem,
        0x98 => Error::InvalidVertMetrics,
        0x99 => Error::CouldNotFindContext,
        0x9A => Error::InvalidPostTableFormat,
        0x9B => Error::InvalidPostTable,
        0x9C => Error::DefInGlyfBytecode,
        0x9D => Error::MissingBitmap,
        0x9E => Error::MissingSvgHooks,
        0xA0 => Error::SyntaxError,
        0xA1 => Error::StackUnderflow,
        0xA2 => Error::Ignore,
        0xA3 => Error::NoUnicodeGlyphName,
        0xA4 => Error::GlyphTooBig,
        0xB0 => Error::MissingStartfontField,
        0xB1 => Error::MissingFontField,
        0xB2 => Error::MissingSizeField,
        0xB3 => Error::MissingFontboundingboxField,
        0xB4 => Error::MissingCharsField,
        0xB5 => Error::MissingStartcharField,
        0xB6 => Error::MissingEncodingField,
        0xB7 => Error::MissingBbxField,
        0xB8 => Error::BbxTooBig,
        0xB9 => Error::CorruptedFontHeader,
        0xBA => Error::CorruptedFontGlyphs,
        _ => Error::Unknown(code),
    }
}

/// The result that a FreeType return code stands for: `0` is success,
/// anything else the error with that code.
pub open spec fn result_for_code(code: i32) -> FtResult<()> {
    if code == 0 {
        Ok(())
    } else {
        Err(error_for_code(code))
    }
}

impl Error {
    /// The FreeType code of this error.
    pub open spec fn spec_code(self) -> i32 {
        match self {
            Error::CannotOpenResource => 0x01,
            Error::UnknownFileFormat => 0x02,
            Error::InvalidFileFormat => 0x03,
            Error::InvalidVersion => 0x04,
            Error::LowerModuleVersion => 0x05,
            Error::InvalidArgument => 0x06,
            Error::UnimplementedFeature => 0x07,
            Error::InvalidTable => 0x08,
            Error::InvalidOffset => 0x09,
            Error::ArrayTooLarge => 0x0A,
            Error::MissingModule => 0x0B,
            Error::MissingProperty => 0x0C,
            Error::InvalidGlyphIndex => 0x10,
            Error::InvalidCharacterCode => 0x11,
            Error::InvalidGlyphFormat => 0x12,
            Error::CannotRenderGlyph => 0x13,
            Error::InvalidOutline => 0x14,
            Error::InvalidComposite => 0x15,
            Error::TooManyHints => 0x16,
            Error::InvalidPixelSize => 0x17,
            Error::InvalidSvgDocument => 0x18,
            Error::InvalidHandle => 0x20,
            Error::InvalidLibraryHandle => 0x21,
            Error::InvalidDriverHandle => 0x22,
            Error::InvalidFaceHandle => 0x23,
            Error::InvalidSizeHandle => 0x24,
            Error::InvalidSlotHandle => 0x25,
            Error::InvalidCharMapHandle => 0x26,
            Error::InvalidCacheHandle => 0x27,
            Error::InvalidStreamHandle => 0x28,
            Error::TooManyDrivers => 0x30,
            Error::TooManyExtensions => 0x31,
            Error::OutOfMemory => 0x40,
            Error::UnlistedObject => 0x41,
            Error::CannotOpenStream => 0x51,
            Error::InvalidStreamSeek => 0x52,
            Error::InvalidStreamSkip => 0x53,
            Error::InvalidStreamRead => 0x54,
            Error::InvalidStreamOperation => 0x55,
            Error::InvalidFrameOperation => 0x56,
            Error::NestedFrameAccess => 0x57,
            Error::InvalidFrameRead => 0x58,
            Error::RasterUninitialized => 0x60,
            Error::RasterCorrupted => 0x61,
            Error::RasterOverflow => 0x62,
            Error::RasterNegativeHeight => 0x63,
            Error::TooManyCaches => 0x70,
            Error::InvalidOpcode => 0x80,
            Error::TooFewArguments => 0x81,
            Error::StackOverflow => 0x82,
            Error::CodeOverflow => 0x83,
            Error::BadArgument => 0x84,
            Error::DivideByZero => 0x85,
            Error::InvalidReference => 0x86,
            Error::DebugOpcode => 0x87,
            Error::EndfInExecStream => 0x88,
            Error::NestedDefs => 0x89,
            Error::InvalidCoderange => 0x8A,
            Error::ExecutionTooLong => 0x8B,
            Error::TooManyFunctionDefs => 0x8C,
            Error::TooManyInstructionDefs => 0x8D,
            Error::TableMissing => 0x8E,
            Error::HorizHeaderMissing => 0x8F,
            Error::LocationsMissing => 0x90,
            Error::NameTableMissing => 0x91,
            Error::CmapTableMissing => 0x92,
            Error::HmtxTableMissing => 0x93,
            Error::PostTableMissing => 0x94,
            Error::InvalidHorizMetrics => 0x95,
            Error::InvalidCharMapFormat => 0x96,
            Error::InvalidPpem => 0x97,
            Error::InvalidVertMetrics => 0x98,
            Error::CouldNotFindContext => 0x99,
            Error::InvalidPostTableFormat => 0x9A,
            Error::InvalidPostTable => 0x9B,
            Error::DefInGlyfBytecode => 0x9C,
            Error::MissingBitmap => 0x9D,
            Error::MissingSvgHooks => 0x9E,
            Error::SyntaxError => 0xA0,
            Error::StackUnderflow => 0xA1,
            Error::Ignore => 0xA2,
            Error::NoUnicodeGlyphName => 0xA3,
            Error::GlyphTooBig => 0xA4,
            Error::MissingStartfontField => 0xB0,
            Error::MissingFontField => 0xB1,
            Error::MissingSizeField => 0xB2,
            Error::MissingFontboundingboxField => 0xB3,
            Error::MissingCharsField => 0xB4,
            Error::MissingStartcharField => 0xB5,
            Error::MissingEncodingField => 0xB6,
            Error::MissingBbxField => 0xB7,
            Error::BbxTooBig => 0xB8,
            Error::CorruptedFontHeader => 0xB9,
            Error::CorruptedFontGlyphs => 0xBA,
            Error::Unknown(code) => code,
        }
    }

    /// An `Unknown` error only ever carries a code that the table does not list.
    pub open spec fn well_formed(self) -> bool {
        match self {
            Error::Unknown(code) => error_for_code(code) is Unknown,
            _ => true,
        }
    }

    /// The error that FreeType reports with `code`.
    pub fn from_code(code: i32) -> (e: Error)
        ensures
            e == error_for_code(code),
    {
        match code {
            0x01 => Error::CannotOpenResource,
            0x02 => Error::UnknownFileFormat,
            0x03 => Error::InvalidFileFormat,
            0x04 => Error::InvalidVersion,
            0x05 => Error::LowerModuleVersion,
            0x06 => Error::InvalidArgument,
            0x07 => Error::UnimplementedFeature,
            0x08 => Error::InvalidTable,
            0x09 => Error::InvalidOffset,
            0x0A => Error::ArrayTooLarge,
            0x0B => Error::MissingModule,
            0x0C => Error::MissingProperty,
            0x10 => Error::InvalidGlyphIndex,
            0x11 => Error::InvalidCharacterCode,
            0x12 => Error::InvalidGlyphFormat,
            0x13 => Error::CannotRenderGlyph,
            0x14 => Error::InvalidOutline,
            0x15 => Error::InvalidComposite,
            0x16 => Error::TooManyHints,
            0x17 => Error::InvalidPixelSize,
            0x18 => Error::InvalidSvgDocument,
            0x20 => Error::InvalidHandle,
            0x21 => Error::InvalidLibraryHandle,
            0x22 => Error::InvalidDriverHandle,
            0x23 => Error::InvalidFaceHandle,
            0x24 => Error::InvalidSizeHandle,
            0x25 => Error::InvalidSlotHandle,
            0x26 => Error::InvalidCharMapHandle,
            0x27 => Error::InvalidCacheHandle,
            0x28 => Error::InvalidStreamHandle,
            0x30 => Error::TooManyDrivers,
            0x31 => Error::TooManyExtensions,
            0x40 => Error::OutOfMemory,
            0x41 => Error::UnlistedObject,
            0x51 => Error::CannotOpenStream,
            0x52 => Error::InvalidStreamSeek,
            0x53 => Error::InvalidStreamSkip,
            0x54 => Error::InvalidStreamRead,
            0x55 => Error::InvalidStreamOperation,
            0x56 => Error::InvalidFrameOperation,
            0x57 => Error::NestedFrameAccess,
            0x58 => Error::InvalidFrameRead,
            0x60 => Error::RasterUninitialized,
            0x61 => Error::RasterCorrupted,
            0x62 => Error::RasterOverflow,
            0x63 => Error::RasterNegativeHeight,
            0x70 => Error::TooManyCaches,
            0x80 => Error::InvalidOpcode,
            0x81 => Error::TooFewArguments,
            0x82 => Error::StackOverflow,
            0x83 => Error::CodeOverflow,
            0x84 => Error::BadArgument,
            0x85 => Error::DivideByZero,
            0x86 => Error::InvalidReference,
            0x87 => Error::DebugOpcode,
            0x88 => Error::EndfInExecStream,
            0x89 => Error::NestedDefs,
            0x8A => Error::InvalidCoderange,
            0x8B => Error::ExecutionTooLong,
            0x8C => Error::TooManyFunctionDefs,
            0x8D => Error::TooManyInstructionDefs,
            0x8E => Error::TableMissing,
            0x8F => Error::HorizHeaderMissing,
            0x90 => Error::LocationsMissing,
            0x91 => Error::NameTableMissing,
            0x92 => Error::CmapTableMissing,
            0x93 => Error::HmtxTableMissing,
            0x94 => Error::PostTableMissing,
            0x95 => Error::InvalidHorizMetrics,
            0x96 => Error::InvalidCharMapFormat,
            0x97 => Error::InvalidPpem,
            0x98 => Error::InvalidVertMetrics,
            0x99 => Error::CouldNotFindContext,
            0x9A => Error::InvalidPostTableFormat,
            0x9B => Error::InvalidPostTable,
            0x9C => Error::DefInGlyfBytecode,
            0x9D => Error::MissingBitmap,
            0x9E => Error::MissingSvgHooks,
            0xA0 => Error::SyntaxError,
            0xA1 => Error::StackUnderflow,
            0xA2 => Error::Ignore,
            0xA3 => Error::NoUnicodeGlyphName,
            0xA4 => Error::GlyphTooBig,
            0xB0 => Error::MissingStartfontField,
            0xB1 => Error::MissingFontField,
            0xB2 => Error::MissingSizeField,
            0xB3 => Error::MissingFontboundingboxField,
            0xB4 => Error::MissingCharsField,
            0xB5 => Error::MissingStartcharField,
            0xB6 => Error::MissingEncodingField,
            0xB7 => Error::MissingBbxField,
            0xB8 => Error::BbxTooBig,
            0xB9 => Error::CorruptedFontHeader,
            0xBA => Error::CorruptedFontGlyphs,
            _ => Error::Unknown(code),
        }
    }

    /// The FreeType code of this error.
    pub fn code(&self) -> (code: i32)
        ensures
            code == self.spec_code(),
    {
        match self {
            Error::CannotOpenResource => 0x01,
            Error::UnknownFileFormat => 0x02,
            Error::InvalidFileFormat => 0x03,
            Error::InvalidVersion => 0x04,
            Error::LowerModuleVersion => 0x05,
            Error::InvalidArgument => 0x06,
            Error::UnimplementedFeature => 0x07,
            Error::InvalidTable => 0x08,
            Error::InvalidOffset => 0x09,
            Error::ArrayTooLarge => 0x0A,
            Error::MissingModule => 0x0B,
            Error::MissingProperty => 0x0C,
            Error::InvalidGlyphIndex => 0x10,
            Error::InvalidCharacterCode => 0x11,
            Error::InvalidGlyphFormat => 0x12,
            Error::CannotRenderGlyph => 0x13,
            Error::InvalidOutline => 0x14,
            Error::InvalidComposite => 0x15,
            Error::TooManyHints => 0x16,
            Error::InvalidPixelSize => 0x17,
            Error::InvalidSvgDocument => 0x18,
            Error::InvalidHandle => 0x20,
            Error::InvalidLibraryHandle => 0x21,
            Error::InvalidDriverHandle => 0x22,
            Error::InvalidFaceHandle => 0x23,
            Error::InvalidSizeHandle => 0x24,
            Error::InvalidSlotHandle => 0x25,
            Error::InvalidCharMapHandle => 0x26,
            Error::InvalidCacheHandle => 0x27,
            Error::InvalidStreamHandle => 0x28,
            Error::TooManyDrivers => 0x30,
            Error::TooManyExtensions => 0x31,
            Error::OutOfMemory => 0x40,
            Error::UnlistedObject => 0x41,
            Error::CannotOpenStream => 0x51,
            Error::InvalidStreamSeek => 0x52,
            Error::InvalidStreamSkip => 0x53,
            Error::InvalidStreamRead => 0x54,
            Error::InvalidStreamOperation => 0x55,
            Error::InvalidFrameOperation => 0x56,
            Error::NestedFrameAccess => 0x57,
            Error::InvalidFrameRead => 0x58,
            Error::RasterUninitialized => 0x60,
            Error::RasterCorrupted => 0x61,
            Error::RasterOverflow => 0x62,
            Error::RasterNegativeHeight => 0x63,
            Error::TooManyCaches => 0x70,
            Error::InvalidOpcode => 0x80,
            Error::TooFewArguments => 0x81,
            Error::StackOverflow => 0x82,
            Error::CodeOverflow => 0x83,
            Error::BadArgument => 0x84,
            Error::DivideByZero => 0x85,
            Error::InvalidReference => 0x86,
            Error::DebugOpcode => 0x87,
            Error::EndfInExecStream => 0x88,
            Error::NestedDefs => 0x89,
            Error::InvalidCoderange => 0x8A,
            Error::ExecutionTooLong => 0x8B,
            Error::TooManyFunctionDefs => 0x8C,
            Error::TooManyInstructionDefs => 0x8D,
            Error::TableMissing => 0x8E,
            Error::HorizHeaderMissing => 0x8F,
            Error::LocationsMissing => 0x90,
            Error::NameTableMissing => 0x91,
            Error::CmapTableMissing => 0x92,
            Error::HmtxTableMissing => 0x93,
            Error::PostTableMissing => 0x94,
            Error::InvalidHorizMetrics => 0x95,
            Error::InvalidCharMapFormat => 0x96,
            Error::InvalidPpem => 0x97,
            Error::InvalidVertMetrics => 0x98,
            Error::CouldNotFindContext => 0x99,
            Error::InvalidPostTableFormat => 0x9A,
            Error::InvalidPostTable => 0x9B,
            Error::DefInGlyfBytecode => 0x9C,
            Error::MissingBitmap => 0x9D,
            Error::MissingSvgHooks => 0x9E,
            Error::SyntaxError => 0xA0,
            Error::StackUnderflow => 0xA1,
            Error::Ignore => 0xA2,
            Error::NoUnicodeGlyphName => 0xA3,
            Error::GlyphTooBig => 0xA4,
            Error::MissingStartfontField => 0xB0,
            Error::MissingFontField => 0xB1,
            Error::MissingSizeField => 0xB2,
            Error::MissingFontboundingboxField => 0xB3,
            Error::MissingCharsField => 0xB4,
            Error::MissingStartcharField => 0xB5,
            Error::MissingEncodingField => 0xB6,
            Error::MissingBbxField => 0xB7,
            Error::BbxTooBig => 0xB8,
            Error::CorruptedFontHeader => 0xB9,
            Error::CorruptedFontGlyphs => 0xBA,
            Error::Unknown(code) => *code,
        }
    }
}

/// Turns a FreeType return code into a result: `Ok` for `0`, otherwise the
/// error with that code.
pub fn from_ftret(code: i32) -> (r: FtResult<()>)
    ensures
        r == result_for_code(code),
        r is Ok <==> code == 0,
{
    if code == 0 {
        Ok(())
    } else {
        Err(Error::from_code(code))
    }
}

/// Reading an error back from its code gives the code again, for every code.
pub proof fn lemma_code_of_error_for_code(code: i32)
    ensures
        error_for_code(code).spec_code() == code,
        error_for_code(code).well_formed(),
{
}

/// Every well-formed error is the one that its code stands for.
pub proof fn lemma_error_for_code_of_error(e: Error)
    requires
        e.well_formed(),
    ensures
        error_for_code(e.spec_code()) == e,
{
}

/// A failing return code never reads as success, and every error that
/// `from_ftret` reports carries the code that was returned.
pub proof fn lemma_failure_keeps_code(code: i32)
    requires
        code != 0,
    ensures
        result_for_code(code) matches Err(e) && e.spec_code() == code,
{
    lemma_code_of_error_for_code(code);
}

} // verus!
