//! Point views: a collection of points sharing one layout, held as a
//! packed little-endian byte buffer, with typed per-dimension value access.

use vstd::prelude::*;

use vstd::bytes::spec_u16_from_le_bytes;
use vstd::bytes::spec_u32_from_le_bytes;
use vstd::bytes::spec_u64_from_le_bytes;
use vstd::bytes::u16_from_le_bytes;
use vstd::bytes::u32_from_le_bytes;
use vstd::bytes::u64_from_le_bytes;
use vstd::slice::slice_subrange;

use crate::dim::DimTypeId;
use crate::encoding::DimTypeEncoding;
use crate::encoding::PointId;
use crate::encoding::spec_size_bytes;
use crate::error::Error;
use crate::layout::PointLayout;
use crate::layout::lemma_dim_within_point_size;
use crate::layout::spec_has_dim;
use crate::value::PdalValue;
use crate::value::spec_value_encoding;

verus! {

/// Two's-complement reading of an 8-bit value.
pub open spec fn spec_signed8(n: u8) -> i8 {
    if n < 128 {
        n as i8
    } else {
        (n - 256) as i8
    }
}

/// Two's-complement reading of a 16-bit value.
pub open spec fn spec_signed16(n: u16) -> i16 {
    if n < 32768 {
        n as i16
    } else {
        (n - 65536) as i16
    }
}

/// Two's-complement reading of a 32-bit value.
pub open spec fn spec_signed32(n: u32) -> i32 {
    if n < 2147483648 {
        n as i32
    } else {
        (n - 4294967296) as i32
    }
}

/// Two's-complement reading of a 64-bit value.
pub open spec fn spec_signed64(n: u64) -> i64 {
    if n < 9223372036854775808 {
        n as i64
    } else {
        (n - 18446744073709551616) as i64
    }
}

/// The value stored in little-endian `bytes` under the encoding.
pub open spec fn spec_decode(enc: DimTypeEncoding, bytes: Seq<u8>) -> PdalValue {
    match enc {
        DimTypeEncoding::Unspecified => PdalValue::Unspecified,
        DimTypeEncoding::Unsigned8 => PdalValue::Unsigned8(bytes[0]),
        DimTypeEncoding::Signed8 => PdalValue::Signed8(spec_signed8(bytes[0])),
        DimTypeEncoding::Unsigned16 => PdalValue::Unsigned16(spec_u16_from_le_bytes(bytes)),
        DimTypeEncoding::Signed16 => PdalValue::Signed16(
            spec_signed16(spec_u16_from_le_bytes(bytes)),
        ),
        DimTypeEncoding::Unsigned32 => PdalValue::Unsigned32(spec_u32_from_le_bytes(bytes)),
        DimTypeEncoding::Signed32 => PdalValue::Signed32(
            spec_signed32(spec_u32_from_le_bytes(bytes)),
        ),
        DimTypeEncoding::Unsigned64 => PdalValue::Unsigned64(spec_u64_from_le_bytes(bytes)),
        DimTypeEncoding::Signed64 => PdalValue::Signed64(
            spec_signed64(spec_u64_from_le_bytes(bytes)),
        ),
        DimTypeEncoding::Float => PdalValue::Float(spec_u32_from_le_bytes(bytes)),
        DimTypeEncoding::Double => PdalValue::Double(spec_u64_from_le_bytes(bytes)),
    }
}

/// Two's-complement conversion of an 8-bit value.
fn signed8_of(n: u8) -> (r: i8)
    ensures
        r == spec_signed8(n),
{
    if n < 128 {
        n as i8
    } else {
        -((255 - n) as i8) - 1
    }
}

/// Two's-complement conversion of a 16-bit value.
fn signed16_of(n: u16) -> (r: i16)
    ensures
        r == spec_signed16(n),
{
    if n < 32768 {
        n as i16
    } else {
        -((65535 - n) as i16) - 1
    }
}

/// Two's-complement conversion of a 32-bit value.
fn signed32_of(n: u32) -> (r: i32)
    ensures
        r == spec_signed32(n),
{
    if n < 2147483648 {
        n as i32
    } else {
        -((4294967295 - n) as i32) - 1
    }
}

/// Two's-complement conversion of a 64-bit value.
fn signed64_of(n: u64) -> (r: i64)
    ensures
        r == spec_signed64(n),
{
    if n < 9223372036854775808 {
        n as i64
    } else {
        -((18446744073709551615 - n) as i64) - 1
    }
}

/// A point view: points sharing one layout, packed back to back in a
/// little-endian byte buffer.
#[derive(Clone, Debug)]
pub struct PointView {
    id: i32,
    count: u64,
    proj4: String,
    wkt: String,
    layout: PointLayout,
    data: Vec<u8>,
}

impl PointView {
    /// The view's identity.
    pub closed spec fn spec_id(self) -> i32 {
        self.id
    }

    /// How many points the view holds.
    pub closed spec fn spec_len(self) -> u64 {
        self.count
    }

    /// The coordinate reference system as a Proj4 string.
    pub closed spec fn spec_proj4(self) -> Seq<char> {
        self.proj4@
    }

    /// The coordinate reference system as a WKT string.
    pub closed spec fn spec_wkt(self) -> Seq<char> {
        self.wkt@
    }

    /// The view's point layout.
    pub closed spec fn spec_layout(self) -> PointLayout {
        self.layout
    }

    /// The packed point bytes.
    pub closed spec fn spec_data(self) -> Seq<u8> {
        self.data@
    }

    /// The layout is well formed and the buffer holds exactly one packed
    /// record per point.
    pub open spec fn wf(self) -> bool {
        &&& self.spec_layout().wf()
        &&& self.spec_data().len() == self.spec_len() * self.spec_layout().spec_point_size()
    }

    /// What reading a dimension of a point yields: the layout must carry
    /// the dimension and the index must lie inside the view; the value is
    /// then decoded from the point's packed record under the dimension's
    /// encoding.
    pub open spec fn spec_read(self, dim: DimTypeId, idx: PointId) -> Result<PdalValue, Error> {
        let dims = self.spec_layout()@;
        if !spec_has_dim(dims, dim) {
            Err(Error::UnknownDimension)
        } else if idx >= self.spec_len() {
            Err(Error::PointOutOfRange { index: idx, len: self.spec_len() })
        } else {
            let i = choose|i: int| 0 <= i < dims.len() && (#[trigger] dims[i]).id == dim;
            let start = idx * self.spec_layout().spec_point_size() + dims[i].offset;
            Ok(spec_decode(dims[i].encoding, self.spec_data().subrange(start, start + dims[i].size)))
        }
    }

    /// What reading a dimension as a particular type yields: as
    /// [`Self::spec_read`], but a value whose storage encoding is not
    /// exactly the requested one is refused instead of coerced. Requesting
    /// the unspecified encoding places no constraint and yields the tagged
    /// value as stored.
    pub open spec fn spec_read_as(self, dim: DimTypeId, idx: PointId, want: DimTypeEncoding) -> Result<
        PdalValue,
        Error,
    > {
        if want == DimTypeEncoding::Unspecified {
            self.spec_read(dim, idx)
        } else {
            match self.spec_read(dim, idx) {
                Ok(v) => if spec_value_encoding(v) == want {
                    Ok(v)
                } else {
                    Err(Error::TypeMismatch { want })
                },
                Err(e) => Err(e),
            }
        }
    }

    /// Assemble a view from its parts. The buffer must hold exactly
    /// `count` packed records of the layout's point size.
    pub fn from_parts(
        id: i32,
        count: u64,
        proj4: String,
        wkt: String,
        layout: PointLayout,
        data: Vec<u8>,
    ) -> (r: Result<PointView, Error>)
        requires
            layout.wf(),
        ensures
            r is Ok <==> data@.len() == count * layout.spec_point_size(),
            r matches Ok(v) ==> {
                &&& v.wf()
                &&& v.spec_id() == id
                &&& v.spec_len() == count
                &&& v.spec_proj4() == proj4@
                &&& v.spec_wkt() == wkt@
                &&& v.spec_layout() == layout
                &&& v.spec_data() == data@
            },
            r matches Err(e) ==> e == (Error::DataSizeMismatch { actual: data@.len() as usize }),
    {
        let psize = layout.point_size();
        proof {
            assert((count as int) * (psize as int) <= u128::MAX) by (nonlinear_arith)
                requires
                    0 <= count <= u64::MAX,
                    0 <= psize <= u64::MAX,
            ;
        }
        let expected: u128 = (count as u128) * (psize as u128);
        if (data.len() as u128) != expected {
            return Err(Error::DataSizeMismatch { actual: data.len() });
        }
        Ok(PointView { id, count, proj4, wkt, layout, data })
    }

    /// The view's identity.
    pub fn id(&self) -> (r: i32)
        ensures
            r == self.spec_id(),
    {
        self.id
    }

    /// Number of points in the view.
    pub fn len(&self) -> (r: u64)
        ensures
            r == self.spec_len(),
    {
        self.count
    }

    /// Whether the view holds no points.
    pub fn is_empty(&self) -> (r: bool)
        ensures
            r == (self.spec_len() == 0),
    {
        self.count == 0
    }

    /// The valid point indices, in order.
    pub fn point_ids(&self) -> (r: Vec<PointId>)
        requires
            self.spec_len() <= usize::MAX,
        ensures
            r@.len() == self.spec_len(),
            forall|i: int| 0 <= i < r@.len() ==> r@[i] == i,
    {
        let n = self.count;
        let mut ids: Vec<PointId> = Vec::new();
        let mut k: u64 = 0;
        while k < n
            invariant
                0 <= k <= n,
                n <= usize::MAX,
                ids@.len() == k,
                forall|i: int| 0 <= i < k ==> ids@[i] == i,
            decreases n - k,
        {
            ids.push(k);
            k = k + 1;
        }
        ids
    }

    /// The coordinate reference system as a Proj4 string.
    pub fn proj4(&self) -> (r: Result<String, Error>)
        ensures
            r matches Ok(s) && s@ == self.spec_proj4(),
    {
        Ok(self.proj4.clone())
    }

    /// The coordinate reference system as a WKT string.
    pub fn wkt(&self) -> (r: Result<String, Error>)
        ensures
            r matches Ok(s) && s@ == self.spec_wkt(),
    {
        Ok(self.wkt.clone())
    }

    /// The view's point layout.
    pub fn layout(&self) -> (r: &PointLayout)
        ensures
            *r == self.spec_layout(),
    {
        &self.layout
    }

    /// Read the dimension value of the point at the given index, tagged
    /// with the dimension's storage encoding.
    pub fn point_value(&self, dim: DimTypeId, idx: PointId) -> (r: Result<PdalValue, Error>)
        requires
            self.wf(),
        ensures
            r == self.spec_read(dim, idx),
    {
        let ghost dims = self.spec_layout()@;
        let d = match self.layout.dimension_type(dim) {
            Some(d) => d,
            None => {
                return Err(Error::UnknownDimension);
            },
        };
        proof {
            let ci = choose|i: int| 0 <= i < dims.len() && (#[trigger] dims[i]).id == dim;
            let wi = choose|i: int| 0 <= i < dims.len() && (#[trigger] dims[i]) == d;
            assert(dims[wi].id == dim);
            assert(ci == wi);
            assert(d == dims[ci]);
        }
        if idx >= self.count {
            return Err(Error::PointOutOfRange { index: idx, len: self.count });
        }
        let ghost ci = choose|i: int| 0 <= i < dims.len() && (#[trigger] dims[i]).id == dim;
        let psize = self.layout.point_size();
        let dlen = self.data.len();
        proof {
            assert(dlen == self.spec_data().len() && dlen <= usize::MAX);
            assert(d == dims[ci]);
            lemma_dim_within_point_size(self.spec_layout(), ci);
            assert(d.encoding != DimTypeEncoding::Unspecified);
            assert(d.size == spec_size_bytes(d.encoding));
            assert(d.size >= 1);
            assert(d.offset + d.size <= psize);
            assert(psize >= 1);
            assert(self.spec_len() * psize == self.spec_data().len());
            assert(self.spec_len() <= self.spec_len() * psize) by (nonlinear_arith)
                requires
                    psize >= 1,
                    self.spec_len() >= 0,
            ;
            assert(idx <= usize::MAX);
            assert((idx + 1) * psize <= self.spec_len() * psize) by (nonlinear_arith)
                requires
                    idx + 1 <= self.spec_len(),
                    psize >= 0,
            ;
            assert((idx + 1) * psize == idx * psize + psize) by (nonlinear_arith);
            assert(idx * psize + d.offset + d.size <= self.spec_data().len());
        }
        let idx_us: usize = idx as usize;
        proof {
            assert(idx_us == idx);
            assert(idx_us * psize + d.offset + d.size <= self.spec_data().len());
        }
        let start: usize = idx_us * psize + d.offset;
        let value = match d.encoding {
            DimTypeEncoding::Unspecified => unreached(),
            DimTypeEncoding::Unsigned8 => PdalValue::Unsigned8(self.data[start]),
            DimTypeEncoding::Signed8 => PdalValue::Signed8(signed8_of(self.data[start])),
            DimTypeEncoding::Unsigned16 => PdalValue::Unsigned16(
                u16_from_le_bytes(slice_subrange(self.data.as_slice(), start, start + 2)),
            ),
            DimTypeEncoding::Signed16 => PdalValue::Signed16(
                signed16_of(u16_from_le_bytes(slice_subrange(self.data.as_slice(), start, start + 2))),
            ),
            DimTypeEncoding::Unsigned32 => PdalValue::Unsigned32(
                u32_from_le_bytes(slice_subrange(self.data.as_slice(), start, start + 4)),
            ),
            DimTypeEncoding::Signed32 => PdalValue::Signed32(
                signed32_of(u32_from_le_bytes(slice_subrange(self.data.as_slice(), start, start + 4))),
            ),
            DimTypeEncoding::Unsigned64 => PdalValue::Unsigned64(
                u64_from_le_bytes(slice_subrange(self.data.as_slice(), start, start + 8)),
            ),
            DimTypeEncoding::Signed64 => PdalValue::Signed64(
                signed64_of(u64_from_le_bytes(slice_subrange(self.data.as_slice(), start, start + 8))),
            ),
            DimTypeEncoding::Float => PdalValue::Float(
                u32_from_le_bytes(slice_subrange(self.data.as_slice(), start, start + 4)),
            ),
            DimTypeEncoding::Double => PdalValue::Double(
                u64_from_le_bytes(slice_subrange(self.data.as_slice(), start, start + 8)),
            ),
        };
        proof {
            if d.encoding == DimTypeEncoding::Unsigned8 || d.encoding == DimTypeEncoding::Signed8 {
                assert(self.spec_data().subrange(start as int, start + d.size)[0] == self.spec_data()[start as int]);
            }
        }
        Ok(value)
    }

    /// Read the dimension value of the point at the given index as the
    /// requested encoding; an encoding other than the dimension's own is
    /// refused with a type-mismatch error. The engine-side widening read
    /// through a 64-bit float is a floating-point conversion and lives
    /// outside this model.
    pub fn point_value_as(&self, dim: DimTypeId, idx: PointId, want: DimTypeEncoding) -> (r: Result<
        PdalValue,
        Error,
    >)
        requires
            self.wf(),
        ensures
            r == self.spec_read_as(dim, idx, want),
    {
        let v = match self.point_value(dim, idx) {
            Ok(v) => v,
            Err(e) => {
                return Err(e);
            },
        };
        if matches!(want, DimTypeEncoding::Unspecified) {
            return Ok(v);
        }
        if v.encoding() == want {
            Ok(v)
        } else {
            Err(Error::TypeMismatch { want })
        }
    }
}

/// The collection of point views a pipeline run produced.
#[derive(Clone, Debug, Default)]
pub struct PointViewSet {
    views: Vec<PointView>,
}

impl View for PointViewSet {
    type V = Seq<PointView>;

    closed spec fn view(&self) -> Seq<PointView> {
        self.views@
    }
}

impl PointViewSet {
    /// Wrap a list of views.
    pub fn from_views(views: Vec<PointView>) -> (r: PointViewSet)
        ensures
            r@ == views@,
    {
        PointViewSet { views }
    }

    /// How many views the set holds.
    pub fn len(&self) -> (r: usize)
        ensures
            r == self@.len(),
    {
        self.views.len()
    }

    /// Whether the set holds no views.
    pub fn is_empty(&self) -> (r: bool)
        ensures
            r == (self@.len() == 0),
    {
        self.views.len() == 0
    }

    /// The view at `i`.
    pub fn get(&self, i: usize) -> (r: &PointView)
        requires
            i < self@.len(),
        ensures
            *r == self@[i as int],
    {
        &self.views[i]
    }
}

} // verus!
