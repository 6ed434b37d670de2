//! Metadata loader and writer for railway simulation route packages.
//!
//! A route package is described by a TOML manifest naming the package's
//! files, version, authorship and locale.  The loader validates such a
//! document field by field and produces an immutable [`metadata::Metadata`]
//! record, or a [`metadata::MetaError`] naming exactly what was wrong; the
//! writer serializes a record back to the same document format.

pub mod common;
pub mod document;
pub mod metadata;
pub mod laws;
