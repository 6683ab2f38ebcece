//! An in-memory model of a printable document (pages, layers, markers and
//! shared content) and its compilation into a PDF object graph, which lopdf
//! encodes as the bytes of a file.

pub mod compile;
pub mod document;
pub mod errors;
pub mod indices;
pub mod metadata;
pub mod object;
pub mod sources;
pub mod units;
pub mod writer;
