//! The kinds of typed value that a resource value can hold.

use vstd::prelude::*;
use crate::error::DecodeError;

verus! {

/// Data value types. The meaning of a value's `data` depends on its kind.
#[derive(Debug, Clone, Copy, PartialEq, Eq, Structural)]
pub enum DataValueType {
    /// The `data` is either 0 or 1, specifying this resource is either
    /// undefined or empty, respectively.
    TypeNull,
    /// The `data` holds a reference to another resource table entry.
    TypeReference,
    /// The `data` holds an attribute resource identifier.
    TypeAttribute,
    /// The `data` holds an index into the containing resource table's
    /// global value string pool.
    TypeString,
    /// The `data` holds a single-precision floating point number.
    TypeFloat,
    /// The `data` holds a complex number encoding a dimension value, such
    /// as "100in".
    TypeDimension,
    /// The `data` holds a complex number encoding a fraction of a
    /// container.
    TypeFraction,
    /// The `data` holds a dynamic reference, which needs to be resolved
    /// before it can be used like a reference.
    TypeDynamicReference,
    /// The `data` holds an attribute resource identifier, which needs to be
    /// resolved before it can be used like an attribute.
    TypeDynamicAttribute,
    /// The `data` is a raw integer value of the form n..n.
    TypeIntDec,
    /// The `data` is a raw integer value of the form 0xn..n.
    TypeIntHex,
    /// The `data` is either 0 or 1, for input "false" or "true"
    /// respectively.
    TypeIntBoolean,
    /// The `data` is a raw integer value of the form #aarrggbb.
    TypeIntColorArgb8,
    /// The `data` is a raw integer value of the form #rrggbb.
    TypeIntColorRgb8,
    /// The `data` is a raw integer value of the form #argb.
    TypeIntColorArgb4,
    /// The `data` is a raw integer value of the form #rgb.
    TypeIntColorRgb4,
}

impl DataValueType {
    /// The kind that a raw type byte stands for. The mapping is total: a
    /// byte that names no kind stands for `TypeNull`.
    pub open spec fn spec_from_val(value: u8) -> DataValueType {
        if value == 0x01 {
            DataValueType::TypeReference
        } else if value == 0x02 {
            DataValueType::TypeAttribute
        } else if value == 0x03 {
            DataValueType::TypeString
        } else if value == 0x04 {
            DataValueType::TypeFloat
        } else if value == 0x05 {
            DataValueType::TypeDimension
        } else if value == 0x06 {
            DataValueType::TypeFraction
        } else if value == 0x07 {
            DataValueType::TypeDynamicReference
        } else if value == 0x08 {
            DataValueType::TypeDynamicAttribute
        } else if value == 0x10 {
            DataValueType::TypeIntDec
        } else if value == 0x11 {
            DataValueType::TypeIntHex
        } else if value == 0x12 {
            DataValueType::TypeIntBoolean
        } else if value == 0x1c {
            DataValueType::TypeIntColorArgb8
        } else if value == 0x1d {
            DataValueType::TypeIntColorRgb8
        } else if value == 0x1e {
            DataValueType::TypeIntColorArgb4
        } else if value == 0x1f {
            DataValueType::TypeIntColorRgb4
        } else {
            DataValueType::TypeNull
        }
    }

    /// Maps a raw type byte to its kind. It never fails: since a value
    /// record has the same size whatever its kind, a byte that names no kind
    /// is read as `TypeNull`.
    pub fn from_val(value: u8) -> (r: Result<DataValueType, DecodeError>)
        ensures
            r == Ok::<DataValueType, DecodeError>(Self::spec_from_val(value)),
    {
        let data_value_type = match value {
            0x00 => DataValueType::TypeNull,
            0x01 => DataValueType::TypeReference,
            0x02 => DataValueType::TypeAttribute,
            0x03 => DataValueType::TypeString,
            0x04 => DataValueType::TypeFloat,
            0x05 => DataValueType::TypeDimension,
            0x06 => DataValueType::TypeFraction,
            0x07 => DataValueType::TypeDynamicReference,
            0x08 => DataValueType::TypeDynamicAttribute,
            0x10 => DataValueType::TypeIntDec,
            0x11 => DataValueType::TypeIntHex,
            0x12 => DataValueType::TypeIntBoolean,
            0x1c => DataValueType::TypeIntColorArgb8,
            0x1d => DataValueType::TypeIntColorRgb8,
            0x1e => DataValueType::TypeIntColorArgb4,
            0x1f => DataValueType::TypeIntColorRgb4,
            _ => DataValueType::TypeNull,
        };
        Ok(data_value_type)
    }
}

} // verus!
