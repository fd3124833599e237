//! The closed error taxonomy of the library.
//!
//! Every fallible operation reports one of these kinds.  Most of them mirror
//! a numeric error code of the underlying font engine one-to-one; a code
//! outside the mirrored set maps to the fallback kind `UnknownError`.  Two
//! kinds are raised by this crate itself: `InvalidPath` for a path that
//! cannot be handed to the engine, and `UnexpectedPixelMode` for a bitmap
//! whose pixel-format byte is not one of the published formats.

use vstd::prelude::*;

verus! {

/// The result type of every fallible operation of this library.
pub type FtResult<T> = Result<T, Error>;

/// One error kind per numeric error code of the font engine, plus
/// `InvalidPath` and `UnexpectedPixelMode` raised by this crate and the
/// fallback `UnknownError` for a code outside the mirrored set.
#[derive(Clone, Copy, PartialEq, Eq, Structural, Debug)]
pub enum Error {
    CannotOpenResource,
    UnknownFileFormat,
    InvalidFileFormat,
    InvalidVersion,
    LowerModuleVersion,
    InvalidArgument,
    UnimplementedFeature,
    InvalidTable,
    InvalidOffset,
    ArrayTooLarge,
    MissingModule,
    MissingProperty,
    InvalidGlyphIndex,
    InvalidCharacterCode,
    InvalidGlyphFormat,
    CannotRenderGlyph,
    InvalidOutline,
    InvalidComposite,
    TooManyHints,
    InvalidPixelSize,
    InvalidHandle,
    InvalidLibraryHandle,
    InvalidDriverHandle,
    InvalidFaceHandle,
    InvalidSizeHandle,
    InvalidSlotHandle,
    InvalidCharMapHandle,
    InvalidCacheHandle,
    InvalidStreamHandle,
    TooManyDrivers,
    TooManyExtensions,
    OutOfMemory,
    UnlistedObject,
    CannotOpenStream,
    InvalidStreamSeek,
    InvalidStreamSkip,
    InvalidStreamRead,
    InvalidStreamOperation,
    InvalidFrameOperation,
    NestedFrameAccess,
    InvalidFrameRead,
    RasterUninitialized,
    RasterCorrupted,
    RasterOverflow,
    RasterNegativeHeight,
    TooManyCaches,
    InvalidOpcode,
    TooFewArguments,
    StackOverflow,
    CodeOverflow,
    BadArgument,
    DivideByZero,
    InvalidReference,
    DebugOpCode,
    EndfInExecStream,
    NestedDefs,
    InvalidCodeRange,
    ExecutionTooLong,
    TooManyFunctionDefs,
    TooManyInstructionDefs,
    TableMissing,
    HorizHeaderMissing,
    LocationsMissing,
    NameTableMissing,
    CMapTableMissing,
    HmtxTableMissing,
    PostTableMissing,
    InvalidHorizMetrics,
    InvalidCharMapFormat,
    InvalidPPem,
    InvalidVertMetrics,
    CouldNotFindContext,
    InvalidPostTableFormat,
    InvalidPostTable,
    SyntaxError,
    StackUnderflow,
    Ignore,
    NoUnicodeGlyphName,
    MissingStartfontField,
    MissingFontField,
    MissingSizeField,
    MissingFontboundingboxField,
    MissingCharsField,
    MissingStartcharField,
    MissingEncodingField,
    MissingBbxField,
    BbxTooBig,
    CorruptedFontHeader,
    CorruptedFontGlyphs,
    InvalidPath,
    UnexpectedPixelMode,
    UnknownError,
}

/// The error kind that a numeric engine code denotes; codes outside the
/// mirrored set fall back to `UnknownError`.
pub open spec fn error_from_code(code: int) -> Error {
    if code == 1 {
        Error::CannotOpenResource
    } else if code == 2 {
        Error::UnknownFileFormat
    } else if code == 3 {
        Error::InvalidFileFormat
    } else if code == 4 {
        Error::InvalidVersion
    } else if code == 5 {
        Error::LowerModuleVersion
    } else if code == 6 {
        Error::InvalidArgument
    } else if code == 7 {
        Error::UnimplementedFeature
    } else if code == 8 {
        Error::InvalidTable
    } else if code == 9 {
        Error::InvalidOffset
    } else if code == 10 {
        Error::ArrayTooLarge
    } else if code == 11 {
        Error::MissingModule
    } else if code == 12 {
        Error::MissingProperty
    } else if code == 16 {
        Error::InvalidGlyphIndex
    } else if code == 17 {
        Error::InvalidCharacterCode
    } else if code == 18 {
        Error::InvalidGlyphFormat
    } else if code == 19 {
        Error::CannotRenderGlyph
    } else if code == 20 {
        Error::InvalidOutline
    } else if code == 21 {
        Error::InvalidComposite
    } else if code == 22 {
        Error::TooManyHints
    } else if code == 23 {
        Error::InvalidPixelSize
    } else if code == 32 {
        Error::InvalidHandle
    } else if code == 33 {
        Error::InvalidLibraryHandle
    } else if code == 34 {
        Error::InvalidDriverHandle
    } else if code == 35 {
        Error::InvalidFaceHandle
    } else if code == 36 {
        Error::InvalidSizeHandle
    } else if code == 37 {
        Error::InvalidSlotHandle
    } else if code == 38 {
        Error::InvalidCharMapHandle
    } else if code == 39 {
        Error::InvalidCacheHandle
    } else if code == 40 {
        Error::InvalidStreamHandle
    } else if code == 48 {
        Error::TooManyDrivers
    } else if code == 49 {
        Error::TooManyExtensions
    } else if code == 64 {
        Error::OutOfMemory
    } else if code == 65 {
        Error::UnlistedObject
    } else if code == 81 {
        Error::CannotOpenStream
    } else if code == 82 {
        Error::InvalidStreamSeek
    } else if code == 83 {
        Error::InvalidStreamSkip
    } else if code == 84 {
        Error::InvalidStreamRead
    } else if code == 85 {
        Error::InvalidStreamOperation
    } else if code == 86 {
        Error::InvalidFrameOperation
    } else if code == 87 {
        Error::NestedFrameAccess
    } else if code == 88 {
        Error::InvalidFrameRead
    } else if code == 96 {
        Error::RasterUninitialized
    } else if code == 97 {
        Error::RasterCorrupted
    } else if code == 98 {
        Error::RasterOverflow
    } else if code == 99 {
        Error::RasterNegativeHeight
    } else if code == 112 {
        Error::TooManyCaches
    } else if code == 128 {
        Error::InvalidOpcode
    } else if code == 129 {
        Error::TooFewArguments
    } else if code == 130 {
        Error::StackOverflow
    } else if code == 131 {
        Error::CodeOverflow
    } else if code == 132 {
        Error::BadArgument
    } else if code == 133 {
        Error::DivideByZero
    } else if code == 134 {
        Error::InvalidReference
    } else if code == 135 {
        Error::DebugOpCode
    } else if code == 136 {
        Error::EndfInExecStream
    } else if code == 137 {
        Error::NestedDefs
    } else if code == 138 {
        Error::InvalidCodeRange
    } else if code == 139 {
        Error::ExecutionTooLong
    } else if code == 140 {
        Error::TooManyFunctionDefs
    } else if code == 141 {
        Error::TooManyInstructionDefs
    } else if code == 142 {
        Error::TableMissing
    } else if code == 143 {
        Error::HorizHeaderMissing
    } else if code == 144 {
        Error::LocationsMissing
    } else if code == 145 {
        Error::NameTableMissing
    } else if code == 146 {
        Error::CMapTableMissing
    } else if code == 147 {
        Error::HmtxTableMissing
    } else if code == 148 {
        Error::PostTableMissing
    } else if code == 149 {
        Error::InvalidHorizMetrics
    } else if code == 150 {
        Error::InvalidCharMapFormat
    } else if code == 151 {
        Error::InvalidPPem
    } else if code == 152 {
        Error::InvalidVertMetrics
    } else if code == 153 {
        Error::CouldNotFindContext
    } else if code == 154 {
        Error::InvalidPostTableFormat
    } else if code == 155 {
        Error::InvalidPostTable
    } else if code == 160 {
        Error::SyntaxError
    } else if code == 161 {
        Error::StackUnderflow
    } else if code == 162 {
        Error::Ignore
    } else if code == 163 {
        Error::NoUnicodeGlyphName
    } else if code == 176 {
        Error::MissingStartfontField
    } else if code == 177 {
        Error::MissingFontField
    } else if code == 178 {
        Error::MissingSizeField
    } else if code == 179 {
        Error::MissingFontboundingboxField
    } else if code == 180 {
        Error::MissingCharsField
    } else if code == 181 {
        Error::MissingStartcharField
    } else if code == 182 {
        Error::MissingEncodingField
    } else if code == 183 {
        Error::MissingBbxField
    } else if code == 184 {
        Error::BbxTooBig
    } else if code == 185 {
        Error::CorruptedFontHeader
    } else if code == 186 {
        Error::CorruptedFontGlyphs
    } else {
        Error::UnknownError
    }
}

impl vstd::std_specs::convert::FromSpecImpl<i32> for Error {
    open spec fn obeys_from_spec() -> bool {
        true
    }

    open spec fn from_spec(code: i32) -> Error {
        error_from_code(code as int)
    }
}

impl From<i32> for Error {
    /// Map a numeric engine error code onto its error kind.
    fn from(code: i32) -> (r: Error) {
        match code {
            1 => Error::CannotOpenResource,
            2 => Error::UnknownFileFormat,
            3 => Error::InvalidFileFormat,
            4 => Error::InvalidVersion,
            5 => Error::LowerModuleVersion,
            6 => Error::InvalidArgument,
            7 => Error::UnimplementedFeature,
            8 => Error::InvalidTable,
            9 => Error::InvalidOffset,
            10 => Error::ArrayTooLarge,
            11 => Error::MissingModule,
            12 => Error::MissingProperty,
            16 => Error::InvalidGlyphIndex,
            17 => Error::InvalidCharacterCode,
            18 => Error::InvalidGlyphFormat,
            19 => Error::CannotRenderGlyph,
            20 => Error::InvalidOutline,
            21 => Error::InvalidComposite,
            22 => Error::TooManyHints,
            23 => Error::InvalidPixelSize,
            32 => Error::InvalidHandle,
            33 => Error::InvalidLibraryHandle,
            34 => Error::InvalidDriverHandle,
            35 => Error::InvalidFaceHandle,
            36 => Error::InvalidSizeHandle,
            37 => Error::InvalidSlotHandle,
            38 => Error::InvalidCharMapHandle,
            39 => Error::InvalidCacheHandle,
            40 => Error::InvalidStreamHandle,
            48 => Error::TooManyDrivers,
            49 => Error::TooManyExtensions,
            64 => Error::OutOfMemory,
            65 => Error::UnlistedObject,
            81 => Error::CannotOpenStream,
            82 => Error::InvalidStreamSeek,
            83 => Error::InvalidStreamSkip,
            84 => Error::InvalidStreamRead,
            85 => Error::InvalidStreamOperation,
            86 => Error::InvalidFrameOperation,
            87 => Error::NestedFrameAccess,
            88 => Error::InvalidFrameRead,
            96 => Error::RasterUninitialized,
            97 => Error::RasterCorrupted,
            98 => Error::RasterOverflow,
            99 => Error::RasterNegativeHeight,
            112 => Error::TooManyCaches,
            128 => Error::InvalidOpcode,
            129 => Error::TooFewArguments,
            130 => Error::StackOverflow,
            131 => Error::CodeOverflow,
            132 => Error::BadArgument,
            133 => Error::DivideByZero,
            134 => Error::InvalidReference,
            135 => Error::DebugOpCode,
            136 => Error::EndfInExecStream,
            137 => Error::NestedDefs,
            138 => Error::InvalidCodeRange,
            139 => Error::ExecutionTooLong,
            140 => Error::TooManyFunctionDefs,
            141 => Error::TooManyInstructionDefs,
            142 => Error::TableMissing,
            143 => Error::HorizHeaderMissing,
            144 => Error::LocationsMissing,
            145 => Error::NameTableMissing,
            146 => Error::CMapTableMissing,
            147 => Error::HmtxTableMissing,
            148 => Error::PostTableMissing,
            149 => Error::InvalidHorizMetrics,
            150 => Error::InvalidCharMapFormat,
            151 => Error::InvalidPPem,
            152 => Error::InvalidVertMetrics,
            153 => Error::CouldNotFindContext,
            154 => Error::InvalidPostTableFormat,
            155 => Error::InvalidPostTable,
            160 => Error::SyntaxError,
            161 => Error::StackUnderflow,
            162 => Error::Ignore,
            163 => Error::NoUnicodeGlyphName,
            176 => Error::MissingStartfontField,
            177 => Error::MissingFontField,
            178 => Error::MissingSizeField,
            179 => Error::MissingFontboundingboxField,
            180 => Error::MissingCharsField,
            181 => Error::MissingStartcharField,
            182 => Error::MissingEncodingField,
            183 => Error::MissingBbxField,
            184 => Error::BbxTooBig,
            185 => Error::CorruptedFontHeader,
            186 => Error::CorruptedFontGlyphs,
            _ => Error::UnknownError,
        }
    }
}

} // verus!
