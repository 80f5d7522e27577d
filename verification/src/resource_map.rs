//! The resource map chunk: the resource identifiers of the attribute names
//! at the start of the string pool.

use vstd::prelude::*;
use crate::chunk_header::ChunkHeader;
use crate::cursor::ByteCursor;
use crate::cursor::spec_u32_array_at;
use crate::cursor::u32_array_at;
use crate::error::DecodeError;
use crate::xml_types::XmlTypes;

verus! {

/// A decoded resource map chunk.
#[derive(Debug)]
pub struct ResourceMap {
    /// Chunk header.
    pub header: ChunkHeader,
    /// Resource identifiers, in the order of the strings they belong to.
    pub resource_ids: Vec<u32>,
}

/// A resource map as plain values.
pub struct ResourceMapView {
    pub header: ChunkHeader,
    pub resource_ids: Seq<u32>,
}

impl View for ResourceMap {
    type V = ResourceMapView;

    open spec fn view(&self) -> ResourceMapView {
        ResourceMapView { header: self.header, resource_ids: self.resource_ids@ }
    }
}

impl ResourceMap {
    /// The number of identifiers in a chunk with this header: what is left
    /// of the chunk's size after the eight bytes of the header, in 32-bit
    /// words.
    pub open spec fn spec_id_count(header: ChunkHeader) -> int {
        header.size / 4 - 2
    }

    /// What the chunk at `pos` decodes to.
    pub open spec fn spec_decode(bytes: Seq<u8>, pos: int) -> Result<ResourceMapView, DecodeError> {
        match ChunkHeader::spec_decode(bytes, pos, XmlTypes::ResXmlResourceMapType) {
            Err(e) => Err(e),
            Ok(header) => match spec_u32_array_at(bytes, pos + 8, Self::spec_id_count(header)) {
                None => Err(DecodeError::UnexpectedEof),
                Some(resource_ids) => Ok(ResourceMapView { header, resource_ids }),
            },
        }
    }

    /// Decodes the chunk at `pos`.
    pub fn decode_at(data: &[u8], pos: usize) -> (r: Result<ResourceMap, DecodeError>)
        ensures
            match r {
                Ok(map) => {
                    &&& Self::spec_decode(data@, pos as int) == Ok::<ResourceMapView, DecodeError>(
                        map@,
                    )
                    &&& map.resource_ids@.len() == Self::spec_id_count(map.header)
                    &&& pos + 8 + 4 * map.resource_ids@.len() <= data@.len()
                },
                Err(e) => Self::spec_decode(data@, pos as int) == Err::<
                    ResourceMapView,
                    DecodeError,
                >(e),
            },
    {
        let header = ChunkHeader::decode_at(data, pos, XmlTypes::ResXmlResourceMapType)?;
        let count: u32 = header.size / 4 - 2;
        match u32_array_at(data, pos, 8, count as usize) {
            Some(resource_ids) => Ok(ResourceMap { header, resource_ids }),
            None => Err(DecodeError::UnexpectedEof),
        }
    }

    /// Decodes the resource map chunk under the cursor.
    ///
    /// The chunk holds `size / 4 - 2` identifiers, none where that is zero.
    /// On success the cursor has moved over the header and the identifiers;
    /// on an error it stays where it was.
    pub fn from_buff(axml_buff: &mut ByteCursor) -> (r: Result<ResourceMap, DecodeError>)
        ensures
            match r {
                Ok(map) => {
                    &&& Self::spec_decode(old(axml_buff).bytes(), old(axml_buff).pos()) == Ok::<
                        ResourceMapView,
                        DecodeError,
                    >(map@)
                    &&& map.resource_ids@.len() == map.header.size / 4 - 2
                    &&& final(axml_buff).pos() == old(axml_buff).pos() + 8 + 4
                        * map.resource_ids@.len()
                    &&& final(axml_buff).pos() <= old(axml_buff).bytes().len()
                },
                Err(e) => {
                    &&& Self::spec_decode(old(axml_buff).bytes(), old(axml_buff).pos()) == Err::<
                        ResourceMapView,
                        DecodeError,
                    >(e)
                    &&& final(axml_buff).pos() == old(axml_buff).pos()
                },
            },
            final(axml_buff).bytes() == old(axml_buff).bytes(),
    {
        let start: usize = axml_buff.position();
        let map = Self::decode_at(axml_buff.get_ref(), start)?;
        axml_buff.set_position(start + 8 + 4 * map.resource_ids.len());
        Ok(map)
    }
}

} // verus!
