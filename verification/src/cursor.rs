//! A byte buffer with a read position, and little-endian reads from it.

use vstd::prelude::*;
use vstd::slice::slice_subrange;
use byteorder::ByteOrder;
use byteorder::LittleEndian;

verus! {

/// The 16-bit value that two bytes hold in little-endian order.
pub open spec fn le_u16(b0: u8, b1: u8) -> u16 {
    (b0 as int + 0x100 * (b1 as int)) as u16
}

/// The 32-bit value that four bytes hold in little-endian order.
pub open spec fn le_u32(b0: u8, b1: u8, b2: u8, b3: u8) -> u32 {
    (b0 as int + 0x100 * (b1 as int) + 0x1_0000 * (b2 as int) + 0x100_0000 * (b3 as int)) as u32
}

/// The byte at `pos`, if there is one.
pub open spec fn spec_u8_at(bytes: Seq<u8>, pos: int) -> Option<u8> {
    if 0 <= pos && pos + 1 <= bytes.len() {
        Some(bytes[pos])
    } else {
        None
    }
}

/// The little-endian 16-bit value at `pos`, if two bytes are left there.
pub open spec fn spec_u16_at(bytes: Seq<u8>, pos: int) -> Option<u16> {
    if 0 <= pos && pos + 2 <= bytes.len() {
        Some(le_u16(bytes[pos], bytes[pos + 1]))
    } else {
        None
    }
}

/// The little-endian 32-bit value at `pos`, if four bytes are left there.
pub open spec fn spec_u32_at(bytes: Seq<u8>, pos: int) -> Option<u32> {
    if 0 <= pos && pos + 4 <= bytes.len() {
        Some(le_u32(bytes[pos], bytes[pos + 1], bytes[pos + 2], bytes[pos + 3]))
    } else {
        None
    }
}

/// The `count` little-endian 16-bit values from `pos` on, if that many are
/// left there.
pub open spec fn spec_u16_array_at(bytes: Seq<u8>, pos: int, count: int) -> Option<Seq<u16>> {
    if 0 <= pos && 0 <= count && pos + 2 * count <= bytes.len() {
        Some(Seq::new(count as nat, |i: int| le_u16(bytes[pos + 2 * i], bytes[pos + 2 * i + 1])))
    } else {
        None
    }
}

/// The `count` little-endian 32-bit values from `pos` on, if that many are
/// left there.
pub open spec fn spec_u32_array_at(bytes: Seq<u8>, pos: int, count: int) -> Option<Seq<u32>> {
    if 0 <= pos && 0 <= count && pos + 4 * count <= bytes.len() {
        Some(
            Seq::new(
                count as nat,
                |i: int|
                    le_u32(
                        bytes[pos + 4 * i],
                        bytes[pos + 4 * i + 1],
                        bytes[pos + 4 * i + 2],
                        bytes[pos + 4 * i + 3],
                    ),
            ),
        )
    } else {
        None
    }
}

/// `byteorder::LittleEndian::read_u16`: the value of the first two bytes of
/// `buf`, the low byte first. The call panics on fewer than two bytes, which
/// `requires` rules out.
#[verifier::external_body]
fn read_u16_le(buf: &[u8]) -> (v: u16)
    requires
        buf@.len() >= 2,
    ensures
        v == le_u16(buf@[0], buf@[1]),
{
    LittleEndian::read_u16(buf)
}

/// `byteorder::LittleEndian::read_u32`: the value of the first four bytes of
/// `buf`, the low byte first. The call panics on fewer than four bytes, which
/// `requires` rules out.
#[verifier::external_body]
fn read_u32_le(buf: &[u8]) -> (v: u32)
    requires
        buf@.len() >= 4,
    ensures
        v == le_u32(buf@[0], buf@[1], buf@[2], buf@[3]),
{
    LittleEndian::read_u32(buf)
}

/// Reads the byte at offset `off` from `base`.
pub fn u8_at(data: &[u8], base: usize, off: usize) -> (r: Option<u8>)
    ensures
        r == spec_u8_at(data@, base + off),
{
    if base < data.len() && off < data.len() - base {
        Some(data[base + off])
    } else {
        None
    }
}

/// Reads the little-endian 16-bit value at offset `off` from `base`.
pub fn u16_at(data: &[u8], base: usize, off: usize) -> (r: Option<u16>)
    ensures
        r == spec_u16_at(data@, base + off),
{
    if base <= data.len() && off <= data.len() - base && data.len() - base - off >= 2 {
        let at: usize = base + off;
        Some(read_u16_le(slice_subrange(data, at, at + 2)))
    } else {
        None
    }
}

/// Reads the little-endian 32-bit value at offset `off` from `base`.
pub fn u32_at(data: &[u8], base: usize, off: usize) -> (r: Option<u32>)
    ensures
        r == spec_u32_at(data@, base + off),
{
    if base <= data.len() && off <= data.len() - base && data.len() - base - off >= 4 {
        let at: usize = base + off;
        Some(read_u32_le(slice_subrange(data, at, at + 4)))
    } else {
        None
    }
}

/// Reads `count` little-endian 16-bit values from offset `off` from `base`
/// on. Nothing is allocated unless the buffer holds that many.
pub fn u16_array_at(data: &[u8], base: usize, off: usize, count: usize) -> (r: Option<Vec<u16>>)
    ensures
        match r {
            Some(values) => spec_u16_array_at(data@, base + off, count as int) == Some(values@),
            None => spec_u16_array_at(data@, base + off, count as int) is None,
        },
{
    if !(base <= data.len() && off <= data.len() - base && count <= (data.len() - base - off) / 2) {
        return None;
    }
    let at: usize = base + off;
    let mut values: Vec<u16> = Vec::new();
    let mut i: usize = 0;
    while i < count
        invariant
            i <= count,
            at + 2 * count <= data@.len(),
            data@.len() <= usize::MAX,
            values@.len() == i,
            forall|j: int|
                0 <= j < i ==> values@[j] == le_u16(data@[at + 2 * j], data@[at + 2 * j + 1]),
        decreases count - i,
    {
        let from: usize = at + 2 * i;
        values.push(read_u16_le(slice_subrange(data, from, from + 2)));
        i += 1;
    }
    Some(values)
}

/// Reads `count` little-endian 32-bit values from offset `off` from `base`
/// on. Nothing is allocated unless the buffer holds that many.
pub fn u32_array_at(data: &[u8], base: usize, off: usize, count: usize) -> (r: Option<Vec<u32>>)
    ensures
        match r {
            Some(values) => spec_u32_array_at(data@, base + off, count as int) == Some(values@),
            None => spec_u32_array_at(data@, base + off, count as int) is None,
        },
{
    if !(base <= data.len() && off <= data.len() - base && count <= (data.len() - base - off) / 4) {
        return None;
    }
    let at: usize = base + off;
    let mut values: Vec<u32> = Vec::new();
    let mut i: usize = 0;
    while i < count
        invariant
            i <= count,
            at + 4 * count <= data@.len(),
            data@.len() <= usize::MAX,
            values@.len() == i,
            forall|j: int|
                0 <= j < i ==> values@[j] == le_u32(
                    data@[at + 4 * j],
                    data@[at + 4 * j + 1],
                    data@[at + 4 * j + 2],
                    data@[at + 4 * j + 3],
                ),
        decreases count - i,
    {
        let from: usize = at + 4 * i;
        values.push(read_u32_le(slice_subrange(data, from, from + 4)));
        i += 1;
    }
    Some(values)
}

/// An in-memory byte buffer with a read position.
///
/// The position may lie past the end of the buffer; every read from there
/// fails.
#[derive(Debug)]
pub struct ByteCursor {
    data: Vec<u8>,
    position: usize,
}

impl ByteCursor {
    /// The bytes of the buffer.
    pub closed spec fn bytes(&self) -> Seq<u8> {
        self.data@
    }

    /// The read position, counted from the start of the buffer.
    pub closed spec fn pos(&self) -> int {
        self.position as int
    }

    /// A cursor at the start of `data`.
    pub fn new(data: Vec<u8>) -> (c: ByteCursor)
        ensures
            c.bytes() == data@,
            c.pos() == 0,
    {
        ByteCursor { data, position: 0 }
    }

    /// The whole buffer, whatever the position.
    pub fn get_ref(&self) -> (data: &[u8])
        ensures
            data@ == self.bytes(),
            data@.len() <= usize::MAX,
    {
        let data: &[u8] = self.data.as_slice();
        assert(data@.len() == data.len());
        data
    }

    /// The read position.
    pub fn position(&self) -> (p: usize)
        ensures
            p == self.pos(),
    {
        self.position
    }

    /// Moves the read position; the buffer stays as it is.
    pub fn set_position(&mut self, pos: usize)
        ensures
            final(self).pos() == pos,
            final(self).bytes() == old(self).bytes(),
    {
        self.position = pos;
    }

    /// Gives the buffer back.
    pub fn into_inner(self) -> (data: Vec<u8>)
        ensures
            data@ == self.bytes(),
    {
        self.data
    }
}

} // verus!
