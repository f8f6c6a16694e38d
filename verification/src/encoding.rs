//! The dimension-encoding enumeration: the physical storage type of a
//! dimension's values, together with the numeric type tags the native engine
//! computes for each encoding at compile time.

use vstd::prelude::*;

use crate::dim::DimTypeId;

verus! {

/// Index of a point within a point view.
pub type PointId = u64;

/// A dimension paired with the encoding its values are stored as.
#[derive(Clone, Copy, PartialEq, Eq, Structural, Debug)]
pub struct DimType {
    pub id: DimTypeId,
    pub encoding: DimTypeEncoding,
}

impl DimType {
    /// The dimension's identifier.
    pub fn id(&self) -> (r: DimTypeId)
        ensures
            r == self.id,
    {
        self.id
    }

    /// The encoding the dimension's values are stored as.
    pub fn encoding(&self) -> (r: DimTypeEncoding)
        ensures
            r == self.encoding,
    {
        self.encoding
    }
}

/// How a dimension's values are stored: a signed or unsigned integer of 8,
/// 16, 32 or 64 bits, or an IEEE-754 float of 32 or 64 bits.
///
/// `None` marks an absent or unknown encoding.
#[derive(Clone, Copy, PartialEq, Eq, Structural, Debug, Default, Hash)]
pub enum DimTypeEncoding {
    #[default]
    Unspecified,
    Unsigned8,
    Signed8,
    Unsigned16,
    Signed16,
    Unsigned32,
    Signed32,
    Unsigned64,
    Signed64,
    Float,
    Double,
}

/// The base-interpretation code the native engine folds into its type tags:
/// 1 for signed integers, 2 for unsigned integers, 4 for floats, 0 for none.
pub open spec fn spec_base_code(enc: DimTypeEncoding) -> u32 {
    match enc {
        DimTypeEncoding::Unspecified => 0,
        DimTypeEncoding::Unsigned8 => 2,
        DimTypeEncoding::Signed8 => 1,
        DimTypeEncoding::Unsigned16 => 2,
        DimTypeEncoding::Signed16 => 1,
        DimTypeEncoding::Unsigned32 => 2,
        DimTypeEncoding::Signed32 => 1,
        DimTypeEncoding::Unsigned64 => 2,
        DimTypeEncoding::Signed64 => 1,
        DimTypeEncoding::Float => 4,
        DimTypeEncoding::Double => 4,
    }
}

/// Width in bytes of each encoding; 0 for `None`.
pub open spec fn spec_size_bytes(enc: DimTypeEncoding) -> usize {
    match enc {
        DimTypeEncoding::Unspecified => 0,
        DimTypeEncoding::Unsigned8 => 1,
        DimTypeEncoding::Signed8 => 1,
        DimTypeEncoding::Unsigned16 => 2,
        DimTypeEncoding::Signed16 => 2,
        DimTypeEncoding::Unsigned32 => 4,
        DimTypeEncoding::Signed32 => 4,
        DimTypeEncoding::Unsigned64 => 8,
        DimTypeEncoding::Signed64 => 8,
        DimTypeEncoding::Float => 4,
        DimTypeEncoding::Double => 8,
    }
}

/// The native engine's compile-time type tag: base code times 256 plus width.
pub open spec fn spec_ordinal(enc: DimTypeEncoding) -> u32 {
    (spec_base_code(enc) * 256 + spec_size_bytes(enc)) as u32
}

impl DimTypeEncoding {
    /// The encoding's name, as the enumeration spells it.
    pub fn name(&self) -> (r: &'static str)
        ensures
            r@ == spec_encoding_name(*self),
    {
        match *self {
            DimTypeEncoding::Unspecified => "None",
            DimTypeEncoding::Unsigned8 => "Unsigned8",
            DimTypeEncoding::Signed8 => "Signed8",
            DimTypeEncoding::Unsigned16 => "Unsigned16",
            DimTypeEncoding::Signed16 => "Signed16",
            DimTypeEncoding::Unsigned32 => "Unsigned32",
            DimTypeEncoding::Signed32 => "Signed32",
            DimTypeEncoding::Unsigned64 => "Unsigned64",
            DimTypeEncoding::Signed64 => "Signed64",
            DimTypeEncoding::Float => "Float",
            DimTypeEncoding::Double => "Double",
        }
    }

    /// The C-style name of the storage type, as the native engine reports it.
    pub fn interpretation(&self) -> (r: String)
        ensures
            r@ == spec_interpretation(*self),
    {
        let s: &str = match *self {
            DimTypeEncoding::Unspecified => "unknown",
            DimTypeEncoding::Unsigned8 => "uint8_t",
            DimTypeEncoding::Signed8 => "int8_t",
            DimTypeEncoding::Unsigned16 => "uint16_t",
            DimTypeEncoding::Signed16 => "int16_t",
            DimTypeEncoding::Unsigned32 => "uint32_t",
            DimTypeEncoding::Signed32 => "int32_t",
            DimTypeEncoding::Unsigned64 => "uint64_t",
            DimTypeEncoding::Signed64 => "int64_t",
            DimTypeEncoding::Float => "float",
            DimTypeEncoding::Double => "double",
        };
        s.to_owned()
    }

    /// Width of one stored value in bytes; 0 for `None`.
    pub fn size_bytes(&self) -> (r: usize)
        ensures
            r == spec_size_bytes(*self),
    {
        match *self {
            DimTypeEncoding::Unspecified => 0,
            DimTypeEncoding::Unsigned8 => 1,
            DimTypeEncoding::Signed8 => 1,
            DimTypeEncoding::Unsigned16 => 2,
            DimTypeEncoding::Signed16 => 2,
            DimTypeEncoding::Unsigned32 => 4,
            DimTypeEncoding::Signed32 => 4,
            DimTypeEncoding::Unsigned64 => 8,
            DimTypeEncoding::Signed64 => 8,
            DimTypeEncoding::Float => 4,
            DimTypeEncoding::Double => 8,
        }
    }

    /// The numeric type tag of the encoding, kept value-compatible with the
    /// native engine, which computes it as base-interpretation times 256 plus
    /// the storage width.
    pub fn ordinal(&self) -> (r: u32)
        ensures
            r == spec_ordinal(*self),
            r == spec_base_code(*self) * 256 + spec_size_bytes(*self),
    {
        match *self {
            DimTypeEncoding::Unspecified => 0,
            DimTypeEncoding::Unsigned8 => 513,
            DimTypeEncoding::Signed8 => 257,
            DimTypeEncoding::Unsigned16 => 514,
            DimTypeEncoding::Signed16 => 258,
            DimTypeEncoding::Unsigned32 => 516,
            DimTypeEncoding::Signed32 => 260,
            DimTypeEncoding::Unsigned64 => 520,
            DimTypeEncoding::Signed64 => 264,
            DimTypeEncoding::Float => 1028,
            DimTypeEncoding::Double => 1032,
        }
    }

    /// Recover an encoding from its numeric type tag; `None` (the value) for
    /// a tag the engine never produces.
    pub fn from_ordinal(tag: u32) -> (r: Option<DimTypeEncoding>)
        ensures
            forall|e: DimTypeEncoding| spec_ordinal(e) == tag ==> r == Some(e),
            r matches Some(e) ==> spec_ordinal(e) == tag,
    {
        match tag {
            0 => Some(DimTypeEncoding::Unspecified),
            513 => Some(DimTypeEncoding::Unsigned8),
            257 => Some(DimTypeEncoding::Signed8),
            514 => Some(DimTypeEncoding::Unsigned16),
            258 => Some(DimTypeEncoding::Signed16),
            516 => Some(DimTypeEncoding::Unsigned32),
            260 => Some(DimTypeEncoding::Signed32),
            520 => Some(DimTypeEncoding::Unsigned64),
            264 => Some(DimTypeEncoding::Signed64),
            1028 => Some(DimTypeEncoding::Float),
            1032 => Some(DimTypeEncoding::Double),
            _ => None,
        }
    }
}

/// The spelling returned by [`DimTypeEncoding::name`].
pub open spec fn spec_encoding_name(enc: DimTypeEncoding) -> Seq<char> {
    match enc {
        DimTypeEncoding::Unspecified => "None"@,
        DimTypeEncoding::Unsigned8 => "Unsigned8"@,
        DimTypeEncoding::Signed8 => "Signed8"@,
        DimTypeEncoding::Unsigned16 => "Unsigned16"@,
        DimTypeEncoding::Signed16 => "Signed16"@,
        DimTypeEncoding::Unsigned32 => "Unsigned32"@,
        DimTypeEncoding::Signed32 => "Signed32"@,
        DimTypeEncoding::Unsigned64 => "Unsigned64"@,
        DimTypeEncoding::Signed64 => "Signed64"@,
        DimTypeEncoding::Float => "Float"@,
        DimTypeEncoding::Double => "Double"@,
    }
}

/// The C-style storage-type name returned by [`DimTypeEncoding::interpretation`].
pub open spec fn spec_interpretation(enc: DimTypeEncoding) -> Seq<char> {
    match enc {
        DimTypeEncoding::Unspecified => "unknown"@,
        DimTypeEncoding::Unsigned8 => "uint8_t"@,
        DimTypeEncoding::Signed8 => "int8_t"@,
        DimTypeEncoding::Unsigned16 => "uint16_t"@,
        DimTypeEncoding::Signed16 => "int16_t"@,
        DimTypeEncoding::Unsigned32 => "uint32_t"@,
        DimTypeEncoding::Signed32 => "int32_t"@,
        DimTypeEncoding::Unsigned64 => "uint64_t"@,
        DimTypeEncoding::Signed64 => "int64_t"@,
        DimTypeEncoding::Float => "float"@,
        DimTypeEncoding::Double => "double"@,
    }
}

/// Every type tag splits into its base code and width, and the tags of
/// distinct encodings never collide.
pub proof fn lemma_ordinal_injective(a: DimTypeEncoding, b: DimTypeEncoding)
    ensures
        spec_ordinal(a) == spec_ordinal(b) ==> a == b,
{
}

} // verus!
