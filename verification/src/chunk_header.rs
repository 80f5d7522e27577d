//! The eight-byte header that starts every chunk.

use vstd::prelude::*;
use crate::cursor::ByteCursor;
use crate::cursor::spec_u16_at;
use crate::cursor::spec_u32_at;
use crate::cursor::u16_at;
use crate::cursor::u32_at;
use crate::error::DecodeError;
use crate::xml_types::XmlTypes;

verus! {

/// Header that appears at the beginning of every chunk.
#[derive(Debug, Clone, Copy, PartialEq, Eq, Structural)]
pub struct ChunkHeader {
    /// Type identifier for this chunk.
    pub chunk_type: XmlTypes,
    /// Size of the chunk header in bytes. Adding it to the chunk's start
    /// gives the start of the chunk's data.
    pub header_size: u16,
    /// Total size of the chunk in bytes, header and nested chunks included.
    pub size: u32,
}

impl ChunkHeader {
    /// The size rules that every header obeys.
    pub open spec fn well_formed(self) -> bool {
        &&& self.header_size >= 8
        &&& self.size >= 8
        &&& self.size >= self.header_size
    }

    /// What the eight bytes at `pos` decode to when a chunk of type
    /// `expected` is due there. The tag is judged first, then the two sizes
    /// are read, then the size rules are applied.
    pub open spec fn spec_decode(bytes: Seq<u8>, pos: int, expected: XmlTypes) -> Result<
        ChunkHeader,
        DecodeError,
    > {
        match XmlTypes::spec_decode(bytes, pos) {
            Err(e) => Err(e),
            Ok(found) => if found != expected {
                Err(DecodeError::UnexpectedChunkType { expected, found })
            } else {
                match (spec_u16_at(bytes, pos + 2), spec_u32_at(bytes, pos + 4)) {
                    (Some(header_size), Some(size)) => {
                        let header = ChunkHeader { chunk_type: found, header_size, size };
                        if header.well_formed() {
                            Ok(header)
                        } else {
                            Err(DecodeError::MalformedHeader)
                        }
                    },
                    _ => Err(DecodeError::UnexpectedEof),
                }
            },
        }
    }

    /// Decodes the header at `pos`.
    pub fn decode_at(data: &[u8], pos: usize, expected: XmlTypes) -> (r: Result<
        ChunkHeader,
        DecodeError,
    >)
        ensures
            r == Self::spec_decode(data@, pos as int, expected),
    {
        let found = XmlTypes::decode_at(data, pos)?;
        if found != expected {
            return Err(DecodeError::UnexpectedChunkType { expected, found });
        }
        let header_size: u16 = match u16_at(data, pos, 2) {
            Some(v) => v,
            None => return Err(DecodeError::UnexpectedEof),
        };
        let size: u32 = match u32_at(data, pos, 4) {
            Some(v) => v,
            None => return Err(DecodeError::UnexpectedEof),
        };
        if header_size < 8 || size < 8 || size < header_size as u32 {
            return Err(DecodeError::MalformedHeader);
        }
        Ok(ChunkHeader { chunk_type: found, header_size, size })
    }

    /// Reads the header under the cursor and steps over its eight bytes.
    ///
    /// Fails with `UnexpectedChunkType` where the tag is not `expected_type`
    /// and with `MalformedHeader` where a size rule is broken. On an error
    /// the cursor stays where it was.
    pub fn from_buff(axml_buff: &mut ByteCursor, expected_type: XmlTypes) -> (r: Result<
        ChunkHeader,
        DecodeError,
    >)
        ensures
            r == Self::spec_decode(old(axml_buff).bytes(), old(axml_buff).pos(), expected_type),
            r matches Ok(header) ==> header.well_formed() && header.chunk_type == expected_type,
            final(axml_buff).bytes() == old(axml_buff).bytes(),
            r is Ok ==> final(axml_buff).pos() == old(axml_buff).pos() + 8,
            r is Err ==> final(axml_buff).pos() == old(axml_buff).pos(),
    {
        let start: usize = axml_buff.position();
        let header = Self::decode_at(axml_buff.get_ref(), start, expected_type)?;
        axml_buff.set_position(start + 8);
        Ok(header)
    }
}

/// Every header that decodes obeys the size rules, has the expected type,
/// and holds the two sizes as they stand in the buffer.
pub proof fn lemma_decoded_header_obeys_size_rules(bytes: Seq<u8>, pos: int, expected: XmlTypes)
    requires
        ChunkHeader::spec_decode(bytes, pos, expected) is Ok,
    ensures
        ({
            let header = ChunkHeader::spec_decode(bytes, pos, expected)->Ok_0;
            &&& header.header_size >= 8
            &&& header.size >= 8
            &&& header.size >= header.header_size
            &&& header.chunk_type == expected
            &&& spec_u16_at(bytes, pos + 2) == Some(header.header_size)
            &&& spec_u32_at(bytes, pos + 4) == Some(header.size)
        }),
{
}

/// A header of the expected type whose sizes break a rule is rejected as
/// malformed: it is never let through with other sizes.
pub proof fn lemma_broken_size_rule_is_rejected(
    bytes: Seq<u8>,
    pos: int,
    expected: XmlTypes,
    header_size: u16,
    size: u32,
)
    requires
        XmlTypes::spec_decode(bytes, pos) == Ok::<XmlTypes, DecodeError>(expected),
        spec_u16_at(bytes, pos + 2) == Some(header_size),
        spec_u32_at(bytes, pos + 4) == Some(size),
        header_size < 8 || size < 8 || size < header_size,
    ensures
        ChunkHeader::spec_decode(bytes, pos, expected) == Err::<ChunkHeader, DecodeError>(
            DecodeError::MalformedHeader,
        ),
{
}

} // verus!
