//! The string pool chunk: the table of strings that the other chunks refer
//! to by index.
//!
//! After the chunk header come five 32-bit fields (string count, style
//! count, flags, start of the string data, start of the style data), then one
//! 32-bit offset per string and one per style. Each string offset is counted
//! from the start of the string data, which is itself counted from the start
//! of the chunk. A string entry is a length prefix followed by its text, in
//! UTF-8 where bit 8 of the flags is set and in UTF-16 otherwise.
//!
//! Every slot of the offset table gives one string, an empty one too, so
//! that a string's index is its slot.

use vstd::prelude::*;
use vstd::slice::slice_subrange;
use vstd::slice::slice_to_vec;
use vstd::utf8::decode_utf8;
use vstd::utf8::valid_utf8;
use crate::chunk_header::ChunkHeader;
use crate::cursor::ByteCursor;
use crate::cursor::le_u16;
use crate::cursor::spec_u16_array_at;
use crate::cursor::spec_u16_at;
use crate::cursor::spec_u32_array_at;
use crate::cursor::spec_u32_at;
use crate::cursor::spec_u8_at;
use crate::cursor::u16_array_at;
use crate::cursor::u16_at;
use crate::cursor::u32_array_at;
use crate::cursor::u32_at;
use crate::cursor::u8_at;
use crate::error::DecodeError;
use crate::text::clone_strings;
use crate::text::decode_utf16;
use crate::text::encode_utf16;
use crate::text::lemma_utf16_decode_then_encode;
use crate::text::lemma_utf16_encode_then_decode;
use crate::text::string_from_utf16;
use crate::text::string_from_utf8;
use crate::text::texts;
use crate::text::valid_utf16;
use crate::xml_types::XmlTypes;

verus! {

/// Flag bit: the string index is sorted by the string values.
pub const SORTED_FLAG: u32 = 0x1;

/// Flag bit: the pool is encoded in UTF-8.
pub const UTF8_FLAG: u32 = 0x100;

/// A decoded string pool chunk.
#[derive(Debug)]
pub struct StringPool {
    /// Chunk header.
    pub header: ChunkHeader,
    /// Number of strings in this pool.
    pub string_count: u32,
    /// Number of style span arrays in the pool.
    pub style_count: u32,
    /// `SORTED_FLAG` and `UTF8_FLAG`.
    pub flags: u32,
    /// Whether `UTF8_FLAG` is set.
    pub is_utf8: bool,
    /// Offset of the string data from the start of the chunk.
    pub strings_start: u32,
    /// Offset of the style data from the start of the chunk.
    pub styles_start: u32,
    /// Offset of each string from the start of the string data.
    pub strings_offsets: Vec<u32>,
    /// Offset of each style from the start of the style data.
    pub styles_offsets: Vec<u32>,
    /// The strings known once this pool was decoded: those that were known
    /// before, then this pool's own, in the order of its offset table.
    pub strings: Vec<String>,
}

/// A string pool as plain values.
pub struct StringPoolView {
    pub header: ChunkHeader,
    pub string_count: u32,
    pub style_count: u32,
    pub flags: u32,
    pub is_utf8: bool,
    pub strings_start: u32,
    pub styles_start: u32,
    pub strings_offsets: Seq<u32>,
    pub styles_offsets: Seq<u32>,
    pub strings: Seq<Seq<char>>,
}

impl StringPoolView {
    /// What holds of every decoded pool: its header is that of a string
    /// pool and obeys the size rules, each offset table has as many entries
    /// as its count says, `is_utf8` is the flag's bit, and there is a string
    /// for every slot of the string offsets.
    pub open spec fn well_formed(self) -> bool {
        &&& self.header.chunk_type == XmlTypes::ResStringPoolType
        &&& self.header.well_formed()
        &&& self.strings_offsets.len() == self.string_count
        &&& self.styles_offsets.len() == self.style_count
        &&& self.is_utf8 == (self.flags & UTF8_FLAG != 0)
        &&& self.strings.len() >= self.string_count
    }
}

impl View for StringPool {
    type V = StringPoolView;

    open spec fn view(&self) -> StringPoolView {
        StringPoolView {
            header: self.header,
            string_count: self.string_count,
            style_count: self.style_count,
            flags: self.flags,
            is_utf8: self.is_utf8,
            strings_start: self.strings_start,
            styles_start: self.styles_start,
            strings_offsets: self.strings_offsets@,
            styles_offsets: self.styles_offsets@,
            strings: texts(self.strings@),
        }
    }
}

/// The length that two bytes of a UTF-8 length prefix stand for: the low
/// seven bits of the first are the high part, the second is the low part.
pub open spec fn join_length8(first: u8, second: u8) -> u32 {
    (((first & 0x7f) as u32) << 8) | (second as u32)
}

/// The length that two units of a UTF-16 length prefix stand for: the low
/// fifteen bits of the first are the high part, the second is the low part.
pub open spec fn join_length16(first: u16, second: u16) -> u32 {
    (((first & 0x7fff) as u32) << 16) | (second as u32)
}

/// The length prefix of a UTF-8 entry at `pos`, with the number of bytes it
/// takes: one byte, or two where the high bit of the first is set.
pub open spec fn spec_utf8_length(bytes: Seq<u8>, pos: int) -> Option<(u32, usize)> {
    match spec_u8_at(bytes, pos) {
        None => None,
        Some(first) => if first & 0x80 == 0 {
            Some((first as u32, 1usize))
        } else {
            match spec_u8_at(bytes, pos + 1) {
                None => None,
                Some(second) => Some((join_length8(first, second), 2usize)),
            }
        },
    }
}

/// The length prefix of a UTF-16 entry at `pos`, with the number of bytes
/// it takes: one unit, or two where the high bit of the first is set.
pub open spec fn spec_utf16_length(bytes: Seq<u8>, pos: int) -> Option<(u32, usize)> {
    match spec_u16_at(bytes, pos) {
        None => None,
        Some(first) => if first & 0x8000 == 0 {
            Some((first as u32, 2usize))
        } else {
            match spec_u16_at(bytes, pos + 2) {
                None => None,
                Some(second) => Some((join_length16(first, second), 4usize)),
            }
        },
    }
}

/// The text of the UTF-8 entry at `pos`: two length prefixes, the first of
/// which is passed over, then as many bytes as the second says.
pub open spec fn spec_utf8_entry(bytes: Seq<u8>, pos: int) -> Result<Seq<char>, DecodeError> {
    match spec_utf8_length(bytes, pos) {
        None => Err(DecodeError::UnexpectedEof),
        Some((_, first_width)) => match spec_utf8_length(bytes, pos + first_width) {
            None => Err(DecodeError::UnexpectedEof),
            Some((length, second_width)) => {
                let start = pos + first_width + second_width;
                if start + length <= bytes.len() {
                    let payload = bytes.subrange(start, start + length);
                    if valid_utf8(payload) {
                        Ok(decode_utf8(payload))
                    } else {
                        Err(DecodeError::InvalidEncoding)
                    }
                } else {
                    Err(DecodeError::UnexpectedEof)
                }
            },
        },
    }
}

/// The text of the UTF-16 entry at `pos`: a length prefix, then as many
/// 16-bit units as it says.
pub open spec fn spec_utf16_entry(bytes: Seq<u8>, pos: int) -> Result<Seq<char>, DecodeError> {
    match spec_utf16_length(bytes, pos) {
        None => Err(DecodeError::UnexpectedEof),
        Some((length, width)) => match spec_u16_array_at(bytes, pos + width, length as int) {
            None => Err(DecodeError::UnexpectedEof),
            Some(units) => if valid_utf16(units) {
                Ok(decode_utf16(units))
            } else {
                Err(DecodeError::InvalidEncoding)
            },
        },
    }
}

/// The text of the entry at `pos` in the pool's encoding.
pub open spec fn spec_entry(bytes: Seq<u8>, pos: int, utf8: bool) -> Result<
    Seq<char>,
    DecodeError,
> {
    if utf8 {
        spec_utf8_entry(bytes, pos)
    } else {
        spec_utf16_entry(bytes, pos)
    }
}

/// The texts of the entries at `base + offsets[i]`, in the order of
/// `offsets`; where entries fail, the error of the first that does.
pub open spec fn spec_entries(bytes: Seq<u8>, base: int, offsets: Seq<u32>, utf8: bool) -> Result<
    Seq<Seq<char>>,
    DecodeError,
>
    decreases offsets.len(),
{
    if offsets.len() == 0 {
        Ok(Seq::empty())
    } else {
        match spec_entries(bytes, base, offsets.drop_last(), utf8) {
            Err(e) => Err(e),
            Ok(before) => match spec_entry(bytes, base + offsets.last(), utf8) {
                Err(e) => Err(e),
                Ok(text) => Ok(before.push(text)),
            },
        }
    }
}

/// Entries that decode are as many as their offsets.
proof fn lemma_entries_count(bytes: Seq<u8>, base: int, offsets: Seq<u32>, utf8: bool)
    requires
        spec_entries(bytes, base, offsets, utf8) is Ok,
    ensures
        spec_entries(bytes, base, offsets, utf8)->Ok_0.len() == offsets.len(),
    decreases offsets.len(),
{
    if offsets.len() > 0 {
        lemma_entries_count(bytes, base, offsets.drop_last(), utf8);
    }
}

/// An error among the first `k` entries is the error of the whole table.
proof fn lemma_entries_error_stays(
    bytes: Seq<u8>,
    base: int,
    offsets: Seq<u32>,
    utf8: bool,
    k: int,
)
    requires
        0 <= k <= offsets.len(),
        spec_entries(bytes, base, offsets.take(k), utf8) is Err,
    ensures
        spec_entries(bytes, base, offsets, utf8) == spec_entries(
            bytes,
            base,
            offsets.take(k),
            utf8,
        ),
    decreases offsets.len() - k,
{
    if k == offsets.len() {
        assert(offsets.take(k) == offsets);
    } else {
        assert(offsets.take(k + 1).drop_last() == offsets.take(k));
        lemma_entries_error_stays(bytes, base, offsets, utf8, k + 1);
    }
}

/// Reads the length prefix of a UTF-8 entry.
pub fn utf8_length(data: &[u8], pos: usize) -> (r: Option<(u32, usize)>)
    ensures
        r == spec_utf8_length(data@, pos as int),
{
    let first: u8 = u8_at(data, pos, 0)?;
    if first & 0x80 == 0 {
        Some((first as u32, 1))
    } else {
        let second: u8 = u8_at(data, pos, 1)?;
        Some(((((first & 0x7f) as u32) << 8) | (second as u32), 2))
    }
}

/// Reads the length prefix of a UTF-16 entry.
pub fn utf16_length(data: &[u8], pos: usize) -> (r: Option<(u32, usize)>)
    ensures
        r == spec_utf16_length(data@, pos as int),
{
    let first: u16 = u16_at(data, pos, 0)?;
    if first & 0x8000 == 0 {
        Some((first as u32, 2))
    } else {
        let second: u16 = u16_at(data, pos, 2)?;
        Some(((((first & 0x7fff) as u32) << 16) | (second as u32), 4))
    }
}

/// Decodes the UTF-8 entry at `pos`.
pub fn decode_utf8_entry(data: &[u8], pos: usize) -> (r: Result<String, DecodeError>)
    ensures
        match r {
            Ok(s) => spec_utf8_entry(data@, pos as int) == Ok::<Seq<char>, DecodeError>(s@),
            Err(e) => spec_utf8_entry(data@, pos as int) == Err::<Seq<char>, DecodeError>(e),
        },
{
    let len: usize = data.len();
    let (_, first_width) = match utf8_length(data, pos) {
        Some(prefix) => prefix,
        None => return Err(DecodeError::UnexpectedEof),
    };
    let (length, second_width) = match utf8_length(data, pos + first_width) {
        Some(prefix) => prefix,
        None => return Err(DecodeError::UnexpectedEof),
    };
    let start: usize = pos + first_width + second_width;
    if length as usize > len - start {
        return Err(DecodeError::UnexpectedEof);
    }
    let payload: Vec<u8> = slice_to_vec(slice_subrange(data, start, start + length as usize));
    match string_from_utf8(payload) {
        Ok(s) => Ok(s),
        Err(_) => Err(DecodeError::InvalidEncoding),
    }
}

/// Decodes the UTF-16 entry at `pos`.
pub fn decode_utf16_entry(data: &[u8], pos: usize) -> (r: Result<String, DecodeError>)
    ensures
        match r {
            Ok(s) => spec_utf16_entry(data@, pos as int) == Ok::<Seq<char>, DecodeError>(s@),
            Err(e) => spec_utf16_entry(data@, pos as int) == Err::<Seq<char>, DecodeError>(e),
        },
{
    let (length, width) = match utf16_length(data, pos) {
        Some(prefix) => prefix,
        None => return Err(DecodeError::UnexpectedEof),
    };
    let units: Vec<u16> = match u16_array_at(data, pos, width, length as usize) {
        Some(units) => units,
        None => return Err(DecodeError::UnexpectedEof),
    };
    match string_from_utf16(units.as_slice()) {
        Ok(s) => Ok(s),
        Err(_) => Err(DecodeError::InvalidEncoding),
    }
}

/// Decodes the entry that lies `start + offset` bytes after `base`.
pub fn decode_entry(data: &[u8], base: usize, start: u32, offset: u32, utf8: bool) -> (r: Result<
    String,
    DecodeError,
>)
    ensures
        match r {
            Ok(s) => spec_entry(data@, base + start + offset, utf8) == Ok::<
                Seq<char>,
                DecodeError,
            >(s@),
            Err(e) => spec_entry(data@, base + start + offset, utf8) == Err::<
                Seq<char>,
                DecodeError,
            >(e),
        },
{
    let len: usize = data.len();
    if base > len || start as usize > len - base || offset as usize > len - base - start as usize {
        return Err(DecodeError::UnexpectedEof);
    }
    let pos: usize = base + start as usize + offset as usize;
    if utf8 {
        decode_utf8_entry(data, pos)
    } else {
        decode_utf16_entry(data, pos)
    }
}

impl StringPool {
    /// What the chunk at `pos` decodes to when `shared` holds the strings
    /// known so far.
    pub open spec fn spec_decode(bytes: Seq<u8>, pos: int, shared: Seq<Seq<char>>) -> Result<
        StringPoolView,
        DecodeError,
    > {
        match ChunkHeader::spec_decode(bytes, pos, XmlTypes::ResStringPoolType) {
            Err(e) => Err(e),
            Ok(header) => match (
                spec_u32_at(bytes, pos + 8),
                spec_u32_at(bytes, pos + 12),
                spec_u32_at(bytes, pos + 16),
                spec_u32_at(bytes, pos + 20),
                spec_u32_at(bytes, pos + 24),
            ) {
                (
                    Some(string_count),
                    Some(style_count),
                    Some(flags),
                    Some(strings_start),
                    Some(styles_start),
                ) => match (
                    spec_u32_array_at(bytes, pos + 28, string_count as int),
                    spec_u32_array_at(bytes, pos + 28 + 4 * string_count, style_count as int),
                ) {
                    (Some(strings_offsets), Some(styles_offsets)) => {
                        let is_utf8 = flags & UTF8_FLAG != 0;
                        match spec_entries(bytes, pos + strings_start, strings_offsets, is_utf8) {
                            Err(e) => Err(e),
                            Ok(decoded) => Ok(
                                StringPoolView {
                                    header,
                                    string_count,
                                    style_count,
                                    flags,
                                    is_utf8,
                                    strings_start,
                                    styles_start,
                                    strings_offsets,
                                    styles_offsets,
                                    strings: shared + decoded,
                                },
                            ),
                        }
                    },
                    _ => Err(DecodeError::UnexpectedEof),
                },
                _ => Err(DecodeError::UnexpectedEof),
            },
        }
    }

    /// Where the cursor stands after the chunk at `pos`: at the end that
    /// the header gives, or at the end of the buffer where that comes first.
    pub open spec fn spec_end(bytes: Seq<u8>, pos: int, header: ChunkHeader) -> int {
        if pos + header.size <= bytes.len() {
            pos + header.size
        } else {
            bytes.len() as int
        }
    }

    /// Decodes the entries of an offset table, in order.
    pub fn decode_entries(
        data: &[u8],
        base: usize,
        start: u32,
        offsets: &Vec<u32>,
        utf8: bool,
    ) -> (r: Result<Vec<String>, DecodeError>)
        ensures
            match r {
                Ok(decoded) => spec_entries(data@, base + start, offsets@, utf8) == Ok::<
                    Seq<Seq<char>>,
                    DecodeError,
                >(texts(decoded@)),
                Err(e) => spec_entries(data@, base + start, offsets@, utf8) == Err::<
                    Seq<Seq<char>>,
                    DecodeError,
                >(e),
            },
    {
        let mut decoded: Vec<String> = Vec::new();
        let mut i: usize = 0;
        assert(texts(decoded@) == Seq::<Seq<char>>::empty());
        while i < offsets.len()
            invariant
                i <= offsets.len(),
                spec_entries(data@, base + start, offsets@.take(i as int), utf8) == Ok::<
                    Seq<Seq<char>>,
                    DecodeError,
                >(texts(decoded@)),
            decreases offsets.len() - i,
        {
            let ghost before = decoded@;
            proof {
                assert(offsets@.take(i + 1).drop_last() == offsets@.take(i as int));
            }
            match decode_entry(data, base, start, offsets[i], utf8) {
                Ok(s) => {
                    decoded.push(s);
                    assert(texts(decoded@) == texts(before).push(s@));
                },
                Err(e) => {
                    proof {
                        lemma_entries_error_stays(
                            data@,
                            base + start,
                            offsets@,
                            utf8,
                            i + 1,
                        );
                    }
                    return Err(e);
                },
            }
            i += 1;
        }
        assert(offsets@.take(offsets@.len() as int) == offsets@);
        Ok(decoded)
    }

    /// Decodes the chunk at `pos`; `shared` holds the strings known so far.
    pub fn decode_at(data: &[u8], pos: usize, shared: &[String]) -> (r: Result<
        StringPool,
        DecodeError,
    >)
        ensures
            match r {
                Ok(pool) => {
                    &&& Self::spec_decode(data@, pos as int, texts(shared@)) == Ok::<
                        StringPoolView,
                        DecodeError,
                    >(pool@)
                    &&& pool@.well_formed()
                    &&& pool.strings@.len() == shared@.len() + pool.string_count
                },
                Err(e) => Self::spec_decode(data@, pos as int, texts(shared@)) == Err::<
                    StringPoolView,
                    DecodeError,
                >(e),
            },
    {
        let len: usize = data.len();
        let header = ChunkHeader::decode_at(data, pos, XmlTypes::ResStringPoolType)?;
        let string_count: u32 = match u32_at(data, pos, 8) {
            Some(v) => v,
            None => return Err(DecodeError::UnexpectedEof),
        };
        let style_count: u32 = match u32_at(data, pos, 12) {
            Some(v) => v,
            None => return Err(DecodeError::UnexpectedEof),
        };
        let flags: u32 = match u32_at(data, pos, 16) {
            Some(v) => v,
            None => return Err(DecodeError::UnexpectedEof),
        };
        let strings_start: u32 = match u32_at(data, pos, 20) {
            Some(v) => v,
            None => return Err(DecodeError::UnexpectedEof),
        };
        let styles_start: u32 = match u32_at(data, pos, 24) {
            Some(v) => v,
            None => return Err(DecodeError::UnexpectedEof),
        };
        let is_utf8: bool = (flags & UTF8_FLAG) != 0;
        let strings_offsets: Vec<u32> = match u32_array_at(data, pos, 28, string_count as usize) {
            Some(v) => v,
            None => return Err(DecodeError::UnexpectedEof),
        };
        let styles_at: usize = 28 + 4 * (string_count as usize);
        let styles_offsets: Vec<u32> = match u32_array_at(
            data,
            pos,
            styles_at,
            style_count as usize,
        ) {
            Some(v) => v,
            None => return Err(DecodeError::UnexpectedEof),
        };
        let mut decoded: Vec<String> = Self::decode_entries(
            data,
            pos,
            strings_start,
            &strings_offsets,
            is_utf8,
        )?;
        let ghost own = decoded@;
        let mut strings: Vec<String> = clone_strings(shared);
        strings.append(&mut decoded);
        assert(texts(strings@) == texts(shared@) + texts(own));
        proof {
            lemma_decoded_pool_is_well_formed(data@, pos as int, texts(shared@));
        }
        Ok(
            StringPool {
                header,
                string_count,
                style_count,
                flags,
                is_utf8,
                strings_start,
                styles_start,
                strings_offsets,
                styles_offsets,
                strings,
            },
        )
    }

    /// Decodes the string pool chunk under the cursor.
    ///
    /// On success the pool's own strings are appended to `global_strings`,
    /// the pool holds a copy of all of them, and the cursor stands at the
    /// end of the chunk. On an error the cursor and `global_strings` stay as
    /// they were.
    pub fn from_buff(axml_buff: &mut ByteCursor, global_strings: &mut Vec<String>) -> (r: Result<
        StringPool,
        DecodeError,
    >)
        ensures
            match r {
                Ok(pool) => {
                    &&& Self::spec_decode(
                        old(axml_buff).bytes(),
                        old(axml_buff).pos(),
                        texts(old(global_strings)@),
                    ) == Ok::<StringPoolView, DecodeError>(pool@)
                    &&& pool@.well_formed()
                    &&& pool.strings@.len() == old(global_strings)@.len() + pool.string_count
                    &&& texts(final(global_strings)@) == pool@.strings
                    &&& final(axml_buff).pos() == Self::spec_end(
                        old(axml_buff).bytes(),
                        old(axml_buff).pos(),
                        pool.header,
                    )
                },
                Err(e) => {
                    &&& Self::spec_decode(
                        old(axml_buff).bytes(),
                        old(axml_buff).pos(),
                        texts(old(global_strings)@),
                    ) == Err::<StringPoolView, DecodeError>(e)
                    &&& *final(global_strings) == *old(global_strings)
                    &&& final(axml_buff).pos() == old(axml_buff).pos()
                },
            },
            final(axml_buff).bytes() == old(axml_buff).bytes(),
    {
        let start: usize = axml_buff.position();
        let pool = Self::decode_at(axml_buff.get_ref(), start, global_strings.as_slice())?;
        let len: usize = axml_buff.get_ref().len();
        let end: usize = if pool.header.size as usize <= len - start {
            start + pool.header.size as usize
        } else {
            len
        };
        *global_strings = clone_strings(pool.strings.as_slice());
        axml_buff.set_position(end);
        Ok(pool)
    }
}

/// A UTF-8 length prefix of two bytes stands for the low seven bits of the
/// first as the high part and the second as the low part, so for lengths up
/// to 32767.
pub proof fn lemma_join_length8(first: u8, second: u8)
    ensures
        join_length8(first, second) == (first % 0x80) * 0x100 + second,
        join_length8(first, second) <= 0x7fff,
{
    assert(join_length8(first, second) == (first % 0x80) * 0x100 + second) by (bit_vector)
        requires
            join_length8(first, second) == (((first & 0x7f) as u32) << 8) | (second as u32),
    ;
}

/// A UTF-16 length prefix of two units stands for the low fifteen bits of
/// the first as the high part and the second as the low part.
pub proof fn lemma_join_length16(first: u16, second: u16)
    ensures
        join_length16(first, second) == (first % 0x8000) * 0x1_0000 + second,
        join_length16(first, second) <= 0x7fff_ffff,
{
    assert(join_length16(first, second) == (first % 0x8000) * 0x1_0000 + second) by (bit_vector)
        requires
            join_length16(first, second) == (((first & 0x7fff) as u32) << 16) | (second as u32),
    ;
}

/// A UTF-8 length prefix whose first byte is below 0x80 is that byte
/// alone; from 0x80 on it takes the second byte too, and is missing where
/// that byte is.
pub proof fn lemma_utf8_length_continuation(bytes: Seq<u8>, pos: int, first: u8)
    requires
        spec_u8_at(bytes, pos) == Some(first),
    ensures
        first < 0x80 ==> spec_utf8_length(bytes, pos) == Some((first as u32, 1usize)),
        first >= 0x80 ==> spec_utf8_length(bytes, pos) == match spec_u8_at(bytes, pos + 1) {
            Some(second) => Some((join_length8(first, second), 2usize)),
            None => None,
        },
{
    assert((first & 0x80 == 0) <==> first < 0x80) by (bit_vector);
}

/// A UTF-16 length prefix whose first unit is below 0x8000 is that unit
/// alone; from 0x8000 on it takes the second unit too, and is missing where
/// that unit is.
pub proof fn lemma_utf16_length_continuation(bytes: Seq<u8>, pos: int, first: u16)
    requires
        spec_u16_at(bytes, pos) == Some(first),
    ensures
        first < 0x8000 ==> spec_utf16_length(bytes, pos) == Some((first as u32, 2usize)),
        first >= 0x8000 ==> spec_utf16_length(bytes, pos) == match spec_u16_at(bytes, pos + 2) {
            Some(second) => Some((join_length16(first, second), 4usize)),
            None => None,
        },
{
    assert((first & 0x8000 == 0) <==> first < 0x8000) by (bit_vector);
}

/// The two bytes that hold a 16-bit value in little-endian order.
pub open spec fn le_bytes_of_u16(value: u16) -> Seq<u8> {
    seq![(value % 0x100) as u8, (value / 0x100) as u8]
}

/// The bytes that hold a sequence of 16-bit values in little-endian order.
pub open spec fn le_bytes_of_units(units: Seq<u16>) -> Seq<u8> {
    Seq::new(
        2 * units.len(),
        |i: int|
            if i % 2 == 0 {
                (units[i / 2] % 0x100) as u8
            } else {
                (units[i / 2] / 0x100) as u8
            },
    )
}

/// The shortest UTF-16 length prefix that stands for `length`: one unit
/// below 0x8000, two units from there on.
pub open spec fn spec_utf16_prefix(length: u32) -> Seq<u8> {
    if length < 0x8000 {
        le_bytes_of_u16(length as u16)
    } else {
        le_bytes_of_u16((0x8000 + length / 0x1_0000) as u16) + le_bytes_of_u16(
            (length % 0x1_0000) as u16,
        )
    }
}

/// The bytes of the UTF-16 entry of a text, up to its terminator: the
/// shortest length prefix, then the code units.
pub open spec fn spec_utf16_span(text: Seq<char>) -> Seq<u8> {
    let units = encode_utf16(text);
    spec_utf16_prefix(units.len() as u32) + le_bytes_of_units(units)
}

/// The 16-bit values read from a buffer are held by the bytes they were
/// read from.
proof fn lemma_units_are_their_bytes(bytes: Seq<u8>, at: int, count: int)
    requires
        spec_u16_array_at(bytes, at, count) is Some,
    ensures
        le_bytes_of_units(spec_u16_array_at(bytes, at, count)->0) == bytes.subrange(
            at,
            at + 2 * count,
        ),
{
    let held = le_bytes_of_units(spec_u16_array_at(bytes, at, count)->0);
    assert forall|i: int| 0 <= i < held.len() implies held[i] == bytes[at + i] by {
        if i % 2 == 0 {
            assert(i == 2 * (i / 2));
        } else {
            assert(i == 2 * (i / 2) + 1);
        }
    }
}

/// A length prefix that is the shortest for its length is the prefix that
/// the length is written with.
proof fn lemma_shortest_prefix_is_its_bytes(bytes: Seq<u8>, pos: int)
    requires
        spec_utf16_length(bytes, pos) is Some,
        spec_utf16_length(bytes, pos) matches Some((length, width)) ==> (width == 4 ==> length
            >= 0x8000),
    ensures
        ({
            let (length, width) = spec_utf16_length(bytes, pos)->0;
            spec_utf16_prefix(length) == bytes.subrange(pos, pos + width)
        }),
{
    let (length, width) = spec_utf16_length(bytes, pos)->0;
    let first = spec_u16_at(bytes, pos)->0;
    assert((first & 0x8000 == 0) <==> first < 0x8000) by (bit_vector);
    assert(le_bytes_of_u16(first) == bytes.subrange(pos, pos + 2));
    if width == 4 {
        let second = spec_u16_at(bytes, pos + 2)->0;
        lemma_join_length16(first, second);
        assert(0x8000 + length / 0x1_0000 == first);
        assert(length % 0x1_0000 == second);
        assert(le_bytes_of_u16(second) == bytes.subrange(pos + 2, pos + 4));
        assert(bytes.subrange(pos, pos + 2) + bytes.subrange(pos + 2, pos + 4) == bytes.subrange(
            pos,
            pos + 4,
        ));
    }
}

/// Decoding a UTF-16 entry and encoding its text again gives back the bytes
/// of the entry, from its length prefix to its last code unit, where the
/// entry's prefix is the shortest for its length.
pub proof fn lemma_utf16_entry_round_trip(bytes: Seq<u8>, pos: int)
    requires
        spec_utf16_entry(bytes, pos) is Ok,
        spec_utf16_length(bytes, pos) matches Some((length, width)) ==> (width == 4 ==> length
            >= 0x8000),
    ensures
        ({
            let (length, width) = spec_utf16_length(bytes, pos)->0;
            spec_utf16_span(spec_utf16_entry(bytes, pos)->Ok_0) == bytes.subrange(
                pos,
                pos + width + 2 * length,
            )
        }),
{
    let (length, width) = spec_utf16_length(bytes, pos)->0;
    let units = spec_u16_array_at(bytes, pos + width, length as int)->0;
    lemma_utf16_decode_then_encode(units);
    lemma_units_are_their_bytes(bytes, pos + width, length as int);
    lemma_shortest_prefix_is_its_bytes(bytes, pos);
    assert(bytes.subrange(pos, pos + width) + bytes.subrange(
        pos + width,
        pos + width + 2 * length,
    ) == bytes.subrange(pos, pos + width + 2 * length));
}

/// The bytes of the UTF-16 entry of a text decode to that text, wherever
/// in a buffer they stand.
pub proof fn lemma_utf16_span_decodes(text: Seq<char>, before: Seq<u8>, after: Seq<u8>)
    requires
        encode_utf16(text).len() <= 0x7fff_ffff,
    ensures
        spec_utf16_entry(before + spec_utf16_span(text) + after, before.len() as int) == Ok::<
            Seq<char>,
            DecodeError,
        >(text),
{
    let units = encode_utf16(text);
    let length = units.len() as u32;
    let prefix = spec_utf16_prefix(length);
    let bytes = before + spec_utf16_span(text) + after;
    let pos = before.len() as int;
    lemma_utf16_encode_then_decode(text);
    let first = spec_u16_at(bytes, pos)->0;
    assert((first & 0x8000 == 0) <==> first < 0x8000) by (bit_vector);
    if length >= 0x8000 {
        let second = spec_u16_at(bytes, pos + 2)->0;
        lemma_join_length16(first, second);
    }
    let width = prefix.len() as int;
    assert(spec_u16_array_at(bytes, pos + width, length as int) == Some(units));
}

/// A pool that decodes is well-formed, and holds the strings known before
/// it and one more for each of its slots.
pub proof fn lemma_decoded_pool_is_well_formed(bytes: Seq<u8>, pos: int, shared: Seq<Seq<char>>)
    requires
        StringPool::spec_decode(bytes, pos, shared) is Ok,
    ensures
        ({
            let pool = StringPool::spec_decode(bytes, pos, shared)->Ok_0;
            &&& pool.well_formed()
            &&& pool.strings.len() == shared.len() + pool.string_count
            &&& pool.strings.take(shared.len() as int) == shared
        }),
{
    let string_count = spec_u32_at(bytes, pos + 8)->0;
    let flags = spec_u32_at(bytes, pos + 16)->0;
    let strings_start = spec_u32_at(bytes, pos + 20)->0;
    let offsets = spec_u32_array_at(bytes, pos + 28, string_count as int)->0;
    lemma_entries_count(bytes, pos + strings_start, offsets, flags & UTF8_FLAG != 0);
}

} // verus!
