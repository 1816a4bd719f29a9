//! The mathematical model of a structured document.
//!
//! Every supported encoding parses into one shared in-memory representation,
//! and every serializer renders from that same representation, so any two
//! formats are interconvertible through a single intermediate. `Doc` is the
//! specification-level picture of that representation: a format-agnostic
//! tree of nulls, booleans, numbers, strings, sequences and ordered
//! string-keyed tables. Contracts throughout the crate speak of documents
//! as `Doc` values.

use vstd::prelude::*;

verus! {

/// A format-agnostic structured document. Key order in a `Table` is
/// significant: the mappings of all three encodings are modelled as ordered
/// association sequences, so a conversion that keeps declaration order and
/// one that reorders keys denote different documents.
pub enum Doc {
    /// The absent value (JSON `null`, YAML `~`). TOML cannot represent it.
    Null,
    /// A boolean.
    Bool(bool),
    /// An integer literal.
    Int(int),
    /// A floating-point literal, carried as its IEEE 754 bit pattern.
    Float(int),
    /// A string.
    Text(Seq<char>),
    /// An ordered sequence of documents.
    List(Seq<Doc>),
    /// An ordered mapping from string keys to documents.
    Table(Seq<(Seq<char>, Doc)>),
}

} // verus!
