//! The ways in which decoding a chunk stream can fail.

use vstd::prelude::*;
use crate::xml_types::XmlTypes;

verus! {

/// Why a decode pass was aborted. Every error is fatal to the pass.
#[derive(Debug, Clone, Copy, PartialEq, Eq, Structural)]
pub enum DecodeError {
    /// The buffer ended before the bytes that a field needs.
    UnexpectedEof,
    /// A chunk header breaks one of the size rules
    /// (`header_size >= 8`, `size >= 8`, `size >= header_size`).
    MalformedHeader,
    /// A chunk carries a known tag that is not the one its position calls for.
    UnexpectedChunkType { expected: XmlTypes, found: XmlTypes },
    /// A tag is outside the closed set of chunk types.
    UnknownChunkType(u16),
    /// A field that must be zero is not.
    InvariantViolation,
    /// A string entry is not valid UTF-8 or UTF-16.
    InvalidEncoding,
    /// A string index has no entry in the string table.
    StringIndexOutOfRange(u32),
    /// A namespace URI has no registered prefix.
    UnresolvedNamespace,
    /// A chunk of a known kind that this decoder does not read.
    UnsupportedChunk(XmlTypes),
}

} // verus!
