//! Errors reported while decoding a package file.

use vstd::prelude::*;

verus! {

/// Why a decode failed.
///
/// Every variant carries the offending value where one exists, so that a
/// caller can diagnose producer/version mismatches.
#[derive(Debug, Clone, Copy, PartialEq, Eq, Structural)]
pub enum ParseError {
    /// The byte source ended before the requested bytes could be read.
    Io,
    /// The magic tag at the start of the file is wrong.
    InvalidTag,
    /// The legacy file version is not one of the supported values.
    UnsupportedLegacyVersion(i32),
    /// An offset recorded in the file lies outside `[0, file_size]`.
    InvalidFileOffset { offset: i64, file_size: u64 },
    /// A counted array declared a length outside its sanity bound.
    InvalidArraySize(i32),
    /// The compression flags have bits set outside the accepted mask.
    InvalidCompressionFlags,
    /// The package declares compressed chunks, which are not supported.
    CompressedChunksNotSupported,
    /// The package carries no engine version and the caller did not allow
    /// unversioned assets.
    UnversionedAssetNotAllowed,
    /// The package was saved by an engine older than the minimum supported.
    AssetVersionTooOld { major: u16, minor: u16 },
    /// A length-prefixed string held an invalid UTF-8 payload.
    InvalidUtf8,
    /// A length-prefixed string held an invalid UTF-16 payload.
    InvalidUtf16,
}

} // verus!
