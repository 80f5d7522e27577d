//! The eight-byte record of a typed resource value.

use vstd::prelude::*;
use crate::cursor::ByteCursor;
use crate::cursor::spec_u16_at;
use crate::cursor::spec_u32_at;
use crate::cursor::spec_u8_at;
use crate::cursor::u16_at;
use crate::cursor::u32_at;
use crate::cursor::u8_at;
use crate::data_value_type::DataValueType;
use crate::error::DecodeError;

verus! {

/// Representation of a value in a resource, supplying type information.
#[derive(Debug, Clone, Copy, PartialEq, Eq, Structural)]
pub struct ResValue {
    /// Number of bytes in this structure.
    pub size: u16,
    /// Always set to 0.
    pub res0: u8,
    /// How `data` is to be read.
    pub data_type: DataValueType,
    /// The value itself.
    pub data: u32,
}

impl ResValue {
    /// What the eight bytes at `pos` decode to: a 16-bit size, a byte that
    /// must be zero, the type byte and 32 bits of data. The reserved byte is
    /// judged as soon as it is read, before the bytes after it are asked for.
    pub open spec fn spec_decode(bytes: Seq<u8>, pos: int) -> Result<ResValue, DecodeError> {
        match (spec_u16_at(bytes, pos), spec_u8_at(bytes, pos + 2)) {
            (Some(size), Some(res0)) => if res0 != 0 {
                Err(DecodeError::InvariantViolation)
            } else {
                match (spec_u8_at(bytes, pos + 3), spec_u32_at(bytes, pos + 4)) {
                    (Some(raw_type), Some(data)) => Ok(
                        ResValue {
                            size,
                            res0,
                            data_type: DataValueType::spec_from_val(raw_type),
                            data,
                        },
                    ),
                    _ => Err(DecodeError::UnexpectedEof),
                }
            },
            _ => Err(DecodeError::UnexpectedEof),
        }
    }

    /// Decodes the value record at `at`.
    pub fn decode_at(data: &[u8], at: usize) -> (r: Result<ResValue, DecodeError>)
        ensures
            r == Self::spec_decode(data@, at as int),
    {
        let size: u16 = match u16_at(data, at, 0) {
            Some(v) => v,
            None => return Err(DecodeError::UnexpectedEof),
        };
        let res0: u8 = match u8_at(data, at, 2) {
            Some(v) => v,
            None => return Err(DecodeError::UnexpectedEof),
        };
        if res0 != 0 {
            return Err(DecodeError::InvariantViolation);
        }
        let raw_type: u8 = match u8_at(data, at, 3) {
            Some(v) => v,
            None => return Err(DecodeError::UnexpectedEof),
        };
        let data_type = DataValueType::from_val(raw_type)?;
        let value: u32 = match u32_at(data, at, 4) {
            Some(v) => v,
            None => return Err(DecodeError::UnexpectedEof),
        };
        Ok(ResValue { size, res0, data_type, data: value })
    }

    /// Reads the value record under the cursor and steps over its eight
    /// bytes. Fails with `InvariantViolation` where the reserved byte is not
    /// zero. On an error the cursor stays where it was.
    pub fn from_buff(axml_buff: &mut ByteCursor) -> (r: Result<ResValue, DecodeError>)
        ensures
            r == Self::spec_decode(old(axml_buff).bytes(), old(axml_buff).pos()),
            r matches Ok(value) ==> value.res0 == 0,
            final(axml_buff).bytes() == old(axml_buff).bytes(),
            r is Ok ==> final(axml_buff).pos() == old(axml_buff).pos() + 8,
            r is Err ==> final(axml_buff).pos() == old(axml_buff).pos(),
    {
        let start: usize = axml_buff.position();
        let value = Self::decode_at(axml_buff.get_ref(), start)?;
        axml_buff.set_position(start + 8);
        Ok(value)
    }
}

} // verus!
