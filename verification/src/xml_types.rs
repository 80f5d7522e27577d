//! The closed set of chunk types and the decoding of a chunk's tag.

use vstd::prelude::*;
use crate::cursor::ByteCursor;
use crate::cursor::spec_u16_at;
use crate::cursor::u16_at;
use crate::error::DecodeError;

verus! {

/// Type identifiers for chunks.
#[derive(Debug, Clone, Copy, PartialEq, Eq, Structural)]
pub enum XmlTypes {
    ResNullType,
    ResStringPoolType,
    ResTableType,
    ResXmlType,
    /// First of the chunk types nested in an XML document chunk.
    ResXmlStartNamespaceType,
    ResXmlEndNamespaceType,
    ResXmlStartElementType,
    ResXmlEndElementType,
    ResXmlCDataType,
    ResXmlLastChunkType,
    /// An array mapping strings in the string pool back to resource
    /// identifiers. It is optional.
    ResXmlResourceMapType,
    /// First of the chunk types nested in a resource table chunk.
    ResTablePackageType,
    ResTableTypeType,
    ResTableTypeSpecType,
    ResTableLibraryType,
}

impl XmlTypes {
    /// The chunk type that a raw tag stands for, if any.
    pub open spec fn spec_from_tag(raw: u16) -> Option<XmlTypes> {
        if raw == 0x0000 {
            Some(XmlTypes::ResNullType)
        } else if raw == 0x0001 {
            Some(XmlTypes::ResStringPoolType)
        } else if raw == 0x0002 {
            Some(XmlTypes::ResTableType)
        } else if raw == 0x0003 {
            Some(XmlTypes::ResXmlType)
        } else if raw == 0x0100 {
            Some(XmlTypes::ResXmlStartNamespaceType)
        } else if raw == 0x0101 {
            Some(XmlTypes::ResXmlEndNamespaceType)
        } else if raw == 0x0102 {
            Some(XmlTypes::ResXmlStartElementType)
        } else if raw == 0x0103 {
            Some(XmlTypes::ResXmlEndElementType)
        } else if raw == 0x0104 {
            Some(XmlTypes::ResXmlCDataType)
        } else if raw == 0x017f {
            Some(XmlTypes::ResXmlLastChunkType)
        } else if raw == 0x0180 {
            Some(XmlTypes::ResXmlResourceMapType)
        } else if raw == 0x0200 {
            Some(XmlTypes::ResTablePackageType)
        } else if raw == 0x0201 {
            Some(XmlTypes::ResTableTypeType)
        } else if raw == 0x0202 {
            Some(XmlTypes::ResTableTypeSpecType)
        } else if raw == 0x0203 {
            Some(XmlTypes::ResTableLibraryType)
        } else {
            None
        }
    }

    /// The raw tag of a chunk type.
    pub open spec fn spec_tag(self) -> u16 {
        match self {
            XmlTypes::ResNullType => 0x0000,
            XmlTypes::ResStringPoolType => 0x0001,
            XmlTypes::ResTableType => 0x0002,
            XmlTypes::ResXmlType => 0x0003,
            XmlTypes::ResXmlStartNamespaceType => 0x0100,
            XmlTypes::ResXmlEndNamespaceType => 0x0101,
            XmlTypes::ResXmlStartElementType => 0x0102,
            XmlTypes::ResXmlEndElementType => 0x0103,
            XmlTypes::ResXmlCDataType => 0x0104,
            XmlTypes::ResXmlLastChunkType => 0x017f,
            XmlTypes::ResXmlResourceMapType => 0x0180,
            XmlTypes::ResTablePackageType => 0x0200,
            XmlTypes::ResTableTypeType => 0x0201,
            XmlTypes::ResTableTypeSpecType => 0x0202,
            XmlTypes::ResTableLibraryType => 0x0203,
        }
    }

    /// What reading a tag at `pos` gives: the chunk type, `UnexpectedEof`
    /// where fewer than two bytes are left, `UnknownChunkType` where the two
    /// bytes are no known tag.
    pub open spec fn spec_decode(bytes: Seq<u8>, pos: int) -> Result<XmlTypes, DecodeError> {
        match spec_u16_at(bytes, pos) {
            None => Err(DecodeError::UnexpectedEof),
            Some(raw) => match Self::spec_from_tag(raw) {
                None => Err(DecodeError::UnknownChunkType(raw)),
                Some(t) => Ok(t),
            },
        }
    }

    /// Maps a raw tag to its chunk type; `None` for a tag outside the set.
    pub fn from_tag(raw: u16) -> (r: Option<XmlTypes>)
        ensures
            r == Self::spec_from_tag(raw),
    {
        match raw {
            0x0000 => Some(XmlTypes::ResNullType),
            0x0001 => Some(XmlTypes::ResStringPoolType),
            0x0002 => Some(XmlTypes::ResTableType),
            0x0003 => Some(XmlTypes::ResXmlType),
            0x0100 => Some(XmlTypes::ResXmlStartNamespaceType),
            0x0101 => Some(XmlTypes::ResXmlEndNamespaceType),
            0x0102 => Some(XmlTypes::ResXmlStartElementType),
            0x0103 => Some(XmlTypes::ResXmlEndElementType),
            0x0104 => Some(XmlTypes::ResXmlCDataType),
            0x017f => Some(XmlTypes::ResXmlLastChunkType),
            0x0180 => Some(XmlTypes::ResXmlResourceMapType),
            0x0200 => Some(XmlTypes::ResTablePackageType),
            0x0201 => Some(XmlTypes::ResTableTypeType),
            0x0202 => Some(XmlTypes::ResTableTypeSpecType),
            0x0203 => Some(XmlTypes::ResTableLibraryType),
            _ => None,
        }
    }

    /// The raw tag under which this chunk type is stored.
    pub fn tag(&self) -> (raw: u16)
        ensures
            raw == self.spec_tag(),
    {
        match self {
            XmlTypes::ResNullType => 0x0000,
            XmlTypes::ResStringPoolType => 0x0001,
            XmlTypes::ResTableType => 0x0002,
            XmlTypes::ResXmlType => 0x0003,
            XmlTypes::ResXmlStartNamespaceType => 0x0100,
            XmlTypes::ResXmlEndNamespaceType => 0x0101,
            XmlTypes::ResXmlStartElementType => 0x0102,
            XmlTypes::ResXmlEndElementType => 0x0103,
            XmlTypes::ResXmlCDataType => 0x0104,
            XmlTypes::ResXmlLastChunkType => 0x017f,
            XmlTypes::ResXmlResourceMapType => 0x0180,
            XmlTypes::ResTablePackageType => 0x0200,
            XmlTypes::ResTableTypeType => 0x0201,
            XmlTypes::ResTableTypeSpecType => 0x0202,
            XmlTypes::ResTableLibraryType => 0x0203,
        }
    }

    /// Reads the tag at `pos` without a cursor.
    pub fn decode_at(data: &[u8], pos: usize) -> (r: Result<XmlTypes, DecodeError>)
        ensures
            r == Self::spec_decode(data@, pos as int),
    {
        match u16_at(data, pos, 0) {
            None => Err(DecodeError::UnexpectedEof),
            Some(raw) => match Self::from_tag(raw) {
                None => Err(DecodeError::UnknownChunkType(raw)),
                Some(t) => Ok(t),
            },
        }
    }

    /// Reads the tag under the cursor without moving the cursor.
    pub fn peek_block_type(buff: &ByteCursor) -> (r: Result<XmlTypes, DecodeError>)
        ensures
            r == Self::spec_decode(buff.bytes(), buff.pos()),
    {
        Self::decode_at(buff.get_ref(), buff.position())
    }

    /// Reads the tag under the cursor and steps over its two bytes. On an
    /// error the cursor stays where it was.
    pub fn parse_block_type(buff: &mut ByteCursor) -> (r: Result<XmlTypes, DecodeError>)
        ensures
            r == Self::spec_decode(old(buff).bytes(), old(buff).pos()),
            final(buff).bytes() == old(buff).bytes(),
            r is Ok ==> final(buff).pos() == old(buff).pos() + 2,
            r is Err ==> final(buff).pos() == old(buff).pos(),
    {
        let start: usize = buff.position();
        let t = Self::decode_at(buff.get_ref(), start)?;
        buff.set_position(start + 2);
        Ok(t)
    }
}

/// Every chunk type is found again from its own tag, and a tag that stands
/// for a chunk type is that type's tag.
pub proof fn lemma_tag_round_trip(t: XmlTypes, raw: u16)
    ensures
        XmlTypes::spec_from_tag(t.spec_tag()) == Some(t),
        XmlTypes::spec_from_tag(raw) == Some(t) ==> t.spec_tag() == raw,
{
}

} // verus!
