//! Opaque handles into the document's arenas. Handles are plain positions and
//! are never reused, since nothing is ever removed from a document.

use vstd::prelude::*;

verus! {

/// Position of a page in its document.
#[derive(Debug, Clone, Copy, PartialEq, Eq, Structural)]
pub struct PdfPageIndex(pub usize);

/// Position of a layer in its page; meaningful only with that page's index.
#[derive(Debug, Clone, Copy, PartialEq, Eq, Structural)]
pub struct PdfLayerIndex(pub usize);

/// Position of a marker in its layer; meaningful only with that layer's path.
#[derive(Debug, Clone, Copy, PartialEq, Eq, Structural)]
pub struct PdfMarkerIndex(pub usize);

/// Position of a content object in the document's content registry.
#[derive(Debug, Clone, Copy, PartialEq, Eq, Structural)]
pub struct PdfContentIndex(pub usize);

/// A content handle known to hold a font.
#[derive(Debug, Clone, Copy, PartialEq, Eq, Structural)]
pub struct FontIndex(pub PdfContentIndex);

/// A content handle known to hold an embedded vector graphic.
#[derive(Debug, Clone, Copy, PartialEq, Eq, Structural)]
pub struct SvgIndex(pub PdfContentIndex);

} // verus!
