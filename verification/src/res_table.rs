//! The resource table chunk and the package chunks nested in it.

use vstd::prelude::*;
use crate::chunk_header::ChunkHeader;
use crate::cursor::ByteCursor;
use crate::cursor::spec_u16_array_at;
use crate::cursor::spec_u32_at;
use crate::cursor::u16_array_at;
use crate::cursor::u32_at;
use crate::error::DecodeError;
use crate::string_pool::StringPool;
use crate::text::texts;
use crate::xml_types::XmlTypes;

verus! {

/// Number of 16-bit units in a package's name field.
pub const PACKAGE_NAME_UNITS: usize = 128;

/// Number of bytes that the fixed part of a package chunk takes.
pub const PACKAGE_FIXED_BYTES: usize = 288;

/// Header for a resource table.
///
/// Its data contains a series of additional chunks: a string pool holding
/// the string values of the whole table, and one or more package chunks.
#[derive(Debug, Clone, Copy, PartialEq, Eq, Structural)]
pub struct ResTable {
    /// Chunk header.
    pub header: ChunkHeader,
    /// The number of package chunks.
    pub package_count: u32,
}

/// A collection of resource data types within a package.
#[derive(Debug)]
pub struct ResTablePackage {
    /// Chunk header.
    pub header: ChunkHeader,
    /// If this is a base package, its ID. Package IDs start at 1; 0 means
    /// this is not a base package.
    pub id: u32,
    /// Actual name of this package, NUL-terminated.
    pub name: [u16; 128],
    /// Offset to the string pool that defines the resource type symbol
    /// table.
    pub type_strings: u32,
    /// Last index into the type strings that is for public use by others.
    pub last_public_type: u32,
    /// Offset to the string pool that defines the resource key symbol
    /// table.
    pub key_strings: u32,
    /// Last index into the key strings that is for public use by others.
    pub last_public_key: u32,
    pub type_id_offset: u32,
}

/// A package header as plain values.
pub struct ResTablePackageView {
    pub header: ChunkHeader,
    pub id: u32,
    pub name: Seq<u16>,
    pub type_strings: u32,
    pub last_public_type: u32,
    pub key_strings: u32,
    pub last_public_key: u32,
    pub type_id_offset: u32,
}

impl View for ResTablePackage {
    type V = ResTablePackageView;

    open spec fn view(&self) -> ResTablePackageView {
        ResTablePackageView {
            header: self.header,
            id: self.id,
            name: self.name@,
            type_strings: self.type_strings,
            last_public_type: self.last_public_type,
            key_strings: self.key_strings,
            last_public_key: self.last_public_key,
            type_id_offset: self.type_id_offset,
        }
    }
}

/// The units of a name field as an array.
fn name_array(units: &Vec<u16>) -> (name: [u16; 128])
    requires
        units@.len() == 128,
    ensures
        name@ == units@,
{
    let mut name: [u16; 128] = [0; 128];
    let mut i: usize = 0;
    while i < 128
        invariant
            i <= 128,
            units@.len() == 128,
            forall|j: int| 0 <= j < i ==> name@[j] == units@[j],
        decreases 128 - i,
    {
        name[i] = units[i];
        i += 1;
    }
    name
}

impl ResTablePackage {
    /// What the fixed part of the package chunk at `pos` decodes to: the
    /// header, the package id, all 128 units of the name wherever its NUL
    /// stands, and five 32-bit fields.
    pub open spec fn spec_decode(bytes: Seq<u8>, pos: int) -> Result<
        ResTablePackageView,
        DecodeError,
    > {
        match ChunkHeader::spec_decode(bytes, pos, XmlTypes::ResTablePackageType) {
            Err(e) => Err(e),
            Ok(header) => match (
                spec_u32_at(bytes, pos + 8),
                spec_u16_array_at(bytes, pos + 12, PACKAGE_NAME_UNITS as int),
                spec_u32_at(bytes, pos + 268),
                spec_u32_at(bytes, pos + 272),
                spec_u32_at(bytes, pos + 276),
                spec_u32_at(bytes, pos + 280),
                spec_u32_at(bytes, pos + 284),
            ) {
                (
                    Some(id),
                    Some(name),
                    Some(type_strings),
                    Some(last_public_type),
                    Some(key_strings),
                    Some(last_public_key),
                    Some(type_id_offset),
                ) => Ok(
                    ResTablePackageView {
                        header,
                        id,
                        name,
                        type_strings,
                        last_public_type,
                        key_strings,
                        last_public_key,
                        type_id_offset,
                    },
                ),
                _ => Err(DecodeError::UnexpectedEof),
            },
        }
    }

    /// Decodes the fixed part of the package chunk at `pos`.
    pub fn decode_at(data: &[u8], pos: usize) -> (r: Result<ResTablePackage, DecodeError>)
        ensures
            match r {
                Ok(package) => {
                    &&& Self::spec_decode(data@, pos as int) == Ok::<
                        ResTablePackageView,
                        DecodeError,
                    >(package@)
                    &&& pos + PACKAGE_FIXED_BYTES <= data@.len()
                },
                Err(e) => Self::spec_decode(data@, pos as int) == Err::<
                    ResTablePackageView,
                    DecodeError,
                >(e),
            },
    {
        let header = ChunkHeader::decode_at(data, pos, XmlTypes::ResTablePackageType)?;
        let id: u32 = match u32_at(data, pos, 8) {
            Some(v) => v,
            None => return Err(DecodeError::UnexpectedEof),
        };
        let name: [u16; 128] = match u16_array_at(data, pos, 12, PACKAGE_NAME_UNITS) {
            Some(units) => name_array(&units),
            None => return Err(DecodeError::UnexpectedEof),
        };
        let type_strings: u32 = match u32_at(data, pos, 268) {
            Some(v) => v,
            None => return Err(DecodeError::UnexpectedEof),
        };
        let last_public_type: u32 = match u32_at(data, pos, 272) {
            Some(v) => v,
            None => return Err(DecodeError::UnexpectedEof),
        };
        let key_strings: u32 = match u32_at(data, pos, 276) {
            Some(v) => v,
            None => return Err(DecodeError::UnexpectedEof),
        };
        let last_public_key: u32 = match u32_at(data, pos, 280) {
            Some(v) => v,
            None => return Err(DecodeError::UnexpectedEof),
        };
        let type_id_offset: u32 = match u32_at(data, pos, 284) {
            Some(v) => v,
            None => return Err(DecodeError::UnexpectedEof),
        };
        Ok(
            ResTablePackage {
                header,
                id,
                name,
                type_strings,
                last_public_type,
                key_strings,
                last_public_key,
                type_id_offset,
            },
        )
    }

    /// Decodes the fixed part of the package chunk under the cursor.
    ///
    /// On success the cursor has moved over its 288 bytes and stands at the
    /// first chunk nested in the package; on an error it stays where it was.
    pub fn parse(axml_buff: &mut ByteCursor) -> (r: Result<ResTablePackage, DecodeError>)
        ensures
            match r {
                Ok(package) => {
                    &&& Self::spec_decode(old(axml_buff).bytes(), old(axml_buff).pos()) == Ok::<
                        ResTablePackageView,
                        DecodeError,
                    >(package@)
                    &&& final(axml_buff).pos() == old(axml_buff).pos() + PACKAGE_FIXED_BYTES
                },
                Err(e) => {
                    &&& Self::spec_decode(old(axml_buff).bytes(), old(axml_buff).pos()) == Err::<
                        ResTablePackageView,
                        DecodeError,
                    >(e)
                    &&& final(axml_buff).pos() == old(axml_buff).pos()
                },
            },
            final(axml_buff).bytes() == old(axml_buff).bytes(),
    {
        let start: usize = axml_buff.position();
        let package = Self::decode_at(axml_buff.get_ref(), start)?;
        axml_buff.set_position(start + PACKAGE_FIXED_BYTES);
        Ok(package)
    }
}

/// Where the chunk at `pos` nested in a resource table ends, with the
/// table's strings after it. A string pool adds its strings to the table's
/// and ends where its header says; a package ends after its fixed part; any
/// other chunk type is out of place.
pub open spec fn spec_table_chunk(bytes: Seq<u8>, pos: int, strings: Seq<Seq<char>>) -> Result<
    (int, Seq<Seq<char>>),
    DecodeError,
> {
    match XmlTypes::spec_decode(bytes, pos) {
        Err(e) => Err(e),
        Ok(found) => match found {
            XmlTypes::ResStringPoolType => match StringPool::spec_decode(bytes, pos, strings) {
                Err(e) => Err(e),
                Ok(pool) => Ok((StringPool::spec_end(bytes, pos, pool.header), pool.strings)),
            },
            XmlTypes::ResTablePackageType => match ResTablePackage::spec_decode(bytes, pos) {
                Err(e) => Err(e),
                Ok(_) => Ok((pos + PACKAGE_FIXED_BYTES, strings)),
            },
            _ => Err(
                DecodeError::UnexpectedChunkType {
                    expected: XmlTypes::ResTablePackageType,
                    found,
                },
            ),
        },
    }
}

/// Where `count` nested chunks, the first at `pos`, end.
pub open spec fn spec_table_chunks(
    bytes: Seq<u8>,
    pos: int,
    strings: Seq<Seq<char>>,
    count: nat,
) -> Result<int, DecodeError>
    decreases count,
{
    if count == 0 {
        Ok(pos)
    } else {
        match spec_table_chunk(bytes, pos, strings) {
            Err(e) => Err(e),
            Ok((next, known)) => spec_table_chunks(bytes, next, known, (count - 1) as nat),
        }
    }
}

impl ResTable {
    /// What the resource table chunk at `pos` decodes to, and where the last
    /// of the chunks read with it ends: after the header comes the package
    /// count, and then that many nested chunks are decoded.
    pub open spec fn spec_parse(bytes: Seq<u8>, pos: int) -> Result<(ResTable, int), DecodeError> {
        match ChunkHeader::spec_decode(bytes, pos, XmlTypes::ResTableType) {
            Err(e) => Err(e),
            Ok(header) => match spec_u32_at(bytes, pos + 8) {
                None => Err(DecodeError::UnexpectedEof),
                Some(package_count) => match spec_table_chunks(
                    bytes,
                    pos + 12,
                    Seq::empty(),
                    package_count as nat,
                ) {
                    Err(e) => Err(e),
                    Ok(end) => Ok((ResTable { header, package_count }, end)),
                },
            },
        }
    }

    /// Decodes the chunk nested in a resource table at `pos`.
    pub fn table_chunk_at(data: &[u8], pos: usize, strings: &mut Vec<String>) -> (r: Result<
        usize,
        DecodeError,
    >)
        ensures
            match r {
                Ok(next) => {
                    &&& spec_table_chunk(data@, pos as int, texts(old(strings)@)) == Ok::<
                        (int, Seq<Seq<char>>),
                        DecodeError,
                    >((next as int, texts(final(strings)@)))
                    &&& pos + 8 <= next <= data@.len()
                },
                Err(e) => {
                    &&& spec_table_chunk(data@, pos as int, texts(old(strings)@)) == Err::<
                        (int, Seq<Seq<char>>),
                        DecodeError,
                    >(e)
                    &&& *final(strings) == *old(strings)
                },
            },
    {
        let len: usize = data.len();
        let found = XmlTypes::decode_at(data, pos)?;
        match found {
            XmlTypes::ResStringPoolType => {
                let pool = StringPool::decode_at(data, pos, strings.as_slice())?;
                let next: usize = if pool.header.size as usize <= len - pos {
                    pos + pool.header.size as usize
                } else {
                    len
                };
                *strings = pool.strings;
                Ok(next)
            },
            XmlTypes::ResTablePackageType => {
                let _ = ResTablePackage::decode_at(data, pos)?;
                Ok(pos + PACKAGE_FIXED_BYTES)
            },
            _ => Err(
                DecodeError::UnexpectedChunkType {
                    expected: XmlTypes::ResTablePackageType,
                    found,
                },
            ),
        }
    }

    /// Decodes the resource table chunk under the cursor and the chunks
    /// nested in it, as many as its package count says.
    ///
    /// Each nested chunk is a string pool or a package; any other fails with
    /// `UnexpectedChunkType`. On success the cursor stands after the last
    /// chunk read; on an error it stays where it was.
    pub fn parse(axml_buff: &mut ByteCursor) -> (r: Result<ResTable, DecodeError>)
        ensures
            match r {
                Ok(table) => {
                    &&& Self::spec_parse(old(axml_buff).bytes(), old(axml_buff).pos()) == Ok::<
                        (ResTable, int),
                        DecodeError,
                    >((table, final(axml_buff).pos()))
                    &&& old(axml_buff).pos() + 12 <= final(axml_buff).pos() <= old(
                        axml_buff,
                    ).bytes().len()
                },
                Err(e) => {
                    &&& Self::spec_parse(old(axml_buff).bytes(), old(axml_buff).pos()) == Err::<
                        (ResTable, int),
                        DecodeError,
                    >(e)
                    &&& final(axml_buff).pos() == old(axml_buff).pos()
                },
            },
            final(axml_buff).bytes() == old(axml_buff).bytes(),
    {
        let start: usize = axml_buff.position();
        let data: &[u8] = axml_buff.get_ref();
        let header = ChunkHeader::decode_at(data, start, XmlTypes::ResTableType)?;
        let package_count: u32 = match u32_at(data, start, 8) {
            Some(v) => v,
            None => return Err(DecodeError::UnexpectedEof),
        };
        let mut strings: Vec<String> = Vec::new();
        let mut next: usize = start + 12;
        let mut i: u32 = 0;
        assert(texts(strings@) == Seq::<Seq<char>>::empty());
        while i < package_count
            invariant
                i <= package_count,
                start + 12 <= next <= data@.len(),
                data@ == old(axml_buff).bytes(),
                start == old(axml_buff).pos(),
                axml_buff.pos() == start,
                ChunkHeader::spec_decode(data@, start as int, XmlTypes::ResTableType) == Ok::<
                    ChunkHeader,
                    DecodeError,
                >(header),
                spec_u32_at(data@, start + 8) == Some(package_count),
                spec_table_chunks(
                    data@,
                    next as int,
                    texts(strings@),
                    (package_count - i) as nat,
                ) == spec_table_chunks(
                    data@,
                    start + 12,
                    Seq::empty(),
                    package_count as nat,
                ),
            decreases package_count - i,
        {
            next = Self::table_chunk_at(data, next, &mut strings)?;
            i += 1;
        }
        axml_buff.set_position(next);
        Ok(ResTable { header, package_count })
    }
}

/// Nested chunks that decode end within the buffer, each after where it
/// starts.
pub proof fn lemma_table_chunks_advance(
    bytes: Seq<u8>,
    pos: int,
    strings: Seq<Seq<char>>,
    count: nat,
)
    requires
        0 <= pos <= bytes.len(),
        spec_table_chunks(bytes, pos, strings, count) is Ok,
    ensures
        pos <= spec_table_chunks(bytes, pos, strings, count)->Ok_0 <= bytes.len(),
        count > 0 ==> pos < spec_table_chunks(bytes, pos, strings, count)->Ok_0,
    decreases count,
{
    if count > 0 {
        let (next, known) = spec_table_chunk(bytes, pos, strings)->Ok_0;
        lemma_table_chunks_advance(bytes, next, known, (count - 1) as nat);
    }
}

} // verus!
