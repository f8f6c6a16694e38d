//! A discriminated union over the primitive value types a dimension can be
//! stored as.
//!
//! The library does no floating-point arithmetic, so float-encoded
//! dimensions carry their raw IEEE-754 bit patterns (`u32` for 32-bit
//! floats, `u64` for 64-bit floats). Callers that want the numeric value
//! reinterpret the bits outside the library.

use vstd::prelude::*;

use crate::encoding::DimTypeEncoding;

verus! {

/// One dimension value, tagged with its storage encoding.
#[derive(Clone, Copy, PartialEq, Eq, Structural, Debug)]
pub enum PdalValue {
    /// No value: the dimension was absent or its encoding unknown.
    Unspecified,
    Unsigned8(u8),
    Signed8(i8),
    Unsigned16(u16),
    Signed16(i16),
    Unsigned32(u32),
    Signed32(i32),
    Unsigned64(u64),
    Signed64(i64),
    /// Raw bit pattern of a 32-bit IEEE-754 float.
    Float(u32),
    /// Raw bit pattern of a 64-bit IEEE-754 float.
    Double(u64),
}

/// The encoding a value is tagged with.
pub open spec fn spec_value_encoding(v: PdalValue) -> DimTypeEncoding {
    match v {
        PdalValue::Unspecified => DimTypeEncoding::Unspecified,
        PdalValue::Unsigned8(_) => DimTypeEncoding::Unsigned8,
        PdalValue::Signed8(_) => DimTypeEncoding::Signed8,
        PdalValue::Unsigned16(_) => DimTypeEncoding::Unsigned16,
        PdalValue::Signed16(_) => DimTypeEncoding::Signed16,
        PdalValue::Unsigned32(_) => DimTypeEncoding::Unsigned32,
        PdalValue::Signed32(_) => DimTypeEncoding::Signed32,
        PdalValue::Unsigned64(_) => DimTypeEncoding::Unsigned64,
        PdalValue::Signed64(_) => DimTypeEncoding::Signed64,
        PdalValue::Float(_) => DimTypeEncoding::Float,
        PdalValue::Double(_) => DimTypeEncoding::Double,
    }
}

impl PdalValue {
    /// The encoding this value is stored as.
    pub fn encoding(&self) -> (r: DimTypeEncoding)
        ensures
            r == spec_value_encoding(*self),
    {
        match *self {
            PdalValue::Unspecified => DimTypeEncoding::Unspecified,
            PdalValue::Unsigned8(_) => DimTypeEncoding::Unsigned8,
            PdalValue::Signed8(_) => DimTypeEncoding::Signed8,
            PdalValue::Unsigned16(_) => DimTypeEncoding::Unsigned16,
            PdalValue::Signed16(_) => DimTypeEncoding::Signed16,
            PdalValue::Unsigned32(_) => DimTypeEncoding::Unsigned32,
            PdalValue::Signed32(_) => DimTypeEncoding::Signed32,
            PdalValue::Unsigned64(_) => DimTypeEncoding::Unsigned64,
            PdalValue::Signed64(_) => DimTypeEncoding::Signed64,
            PdalValue::Float(_) => DimTypeEncoding::Float,
            PdalValue::Double(_) => DimTypeEncoding::Double,
        }
    }

    /// Extract the value as `u8`; `None` unless it is stored exactly so.
    pub fn as_u8(&self) -> (r: Option<u8>)
        ensures
            r matches Some(x) ==> *self == PdalValue::Unsigned8(x),
            r is None ==> !(*self matches PdalValue::Unsigned8(_)),
    {
        match *self {
            PdalValue::Unsigned8(x) => Some(x),
            _ => None,
        }
    }

    /// Extract the value as `i8`; `None` unless it is stored exactly so.
    pub fn as_i8(&self) -> (r: Option<i8>)
        ensures
            r matches Some(x) ==> *self == PdalValue::Signed8(x),
            r is None ==> !(*self matches PdalValue::Signed8(_)),
    {
        match *self {
            PdalValue::Signed8(x) => Some(x),
            _ => None,
        }
    }

    /// Extract the value as `u16`; `None` unless it is stored exactly so.
    pub fn as_u16(&self) -> (r: Option<u16>)
        ensures
            r matches Some(x) ==> *self == PdalValue::Unsigned16(x),
            r is None ==> !(*self matches PdalValue::Unsigned16(_)),
    {
        match *self {
            PdalValue::Unsigned16(x) => Some(x),
            _ => None,
        }
    }

    /// Extract the value as `i16`; `None` unless it is stored exactly so.
    pub fn as_i16(&self) -> (r: Option<i16>)
        ensures
            r matches Some(x) ==> *self == PdalValue::Signed16(x),
            r is None ==> !(*self matches PdalValue::Signed16(_)),
    {
        match *self {
            PdalValue::Signed16(x) => Some(x),
            _ => None,
        }
    }

    /// Extract the value as `u32`; `None` unless it is stored exactly so.
    pub fn as_u32(&self) -> (r: Option<u32>)
        ensures
            r matches Some(x) ==> *self == PdalValue::Unsigned32(x),
            r is None ==> !(*self matches PdalValue::Unsigned32(_)),
    {
        match *self {
            PdalValue::Unsigned32(x) => Some(x),
            _ => None,
        }
    }

    /// Extract the value as `i32`; `None` unless it is stored exactly so.
    pub fn as_i32(&self) -> (r: Option<i32>)
        ensures
            r matches Some(x) ==> *self == PdalValue::Signed32(x),
            r is None ==> !(*self matches PdalValue::Signed32(_)),
    {
        match *self {
            PdalValue::Signed32(x) => Some(x),
            _ => None,
        }
    }

    /// Extract the value as `u64`; `None` unless it is stored exactly so.
    pub fn as_u64(&self) -> (r: Option<u64>)
        ensures
            r matches Some(x) ==> *self == PdalValue::Unsigned64(x),
            r is None ==> !(*self matches PdalValue::Unsigned64(_)),
    {
        match *self {
            PdalValue::Unsigned64(x) => Some(x),
            _ => None,
        }
    }

    /// Extract the value as `i64`; `None` unless it is stored exactly so.
    pub fn as_i64(&self) -> (r: Option<i64>)
        ensures
            r matches Some(x) ==> *self == PdalValue::Signed64(x),
            r is None ==> !(*self matches PdalValue::Signed64(_)),
    {
        match *self {
            PdalValue::Signed64(x) => Some(x),
            _ => None,
        }
    }

    /// Extract the raw bits of a 32-bit float; `None` unless it is stored
    /// exactly so.
    pub fn as_f32_bits(&self) -> (r: Option<u32>)
        ensures
            r matches Some(x) ==> *self == PdalValue::Float(x),
            r is None ==> !(*self matches PdalValue::Float(_)),
    {
        match *self {
            PdalValue::Float(x) => Some(x),
            _ => None,
        }
    }

    /// Extract the raw bits of a 64-bit float; `None` unless it is stored
    /// exactly so.
    pub fn as_f64_bits(&self) -> (r: Option<u64>)
        ensures
            r matches Some(x) ==> *self == PdalValue::Double(x),
            r is None ==> !(*self matches PdalValue::Double(_)),
    {
        match *self {
            PdalValue::Double(x) => Some(x),
            _ => None,
        }
    }
}

} // verus!
