//! Errors returned by the document API.

use vstd::prelude::*;

verus! {

/// Which level of a handle path failed to resolve.
#[derive(Debug, Clone, Copy, PartialEq, Eq, Structural)]
pub enum IndexError {
    PdfPageIndexError,
    PdfLayerIndexError,
    PdfMarkerIndexError,
    PdfContentIndexError,
}

/// Every failure the library reports.
#[derive(Debug, Clone, Copy, PartialEq, Eq, Structural)]
pub enum Error {
    /// A handle does not resolve at the named level of the hierarchy.
    IndexError(IndexError),
    /// The byte stream is not a recognised font format.
    FontParseError,
    /// Writing the output failed.
    IoError,
    /// The document violates its declared conformance level.
    ConformanceError,
}

} // verus!
