//! Convert structured-data documents between JSON, YAML and TOML.
//!
//! The pipeline parses input text of a source format into one shared generic
//! value and re-renders that value in a target format, optionally
//! pretty-printed. Format tags are resolved up front, either explicitly or
//! from a filename extension, and every failure — an unknown tag, a missing
//! extension hint, text that does not parse, a document the target format
//! cannot represent — is a distinguishable error value.

pub mod codec;
pub mod convert;
pub mod format;
pub mod model;
