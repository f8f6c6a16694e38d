//! Point layouts: the per-point schema. A layout lists the dimensions a
//! point carries, each with its byte offset, byte size and encoding; the
//! dimensions are packed back to back, so the layout's point byte size is
//! exactly the sum of its dimensions' sizes.

use vstd::prelude::*;

use crate::dim::DimTypeId;
use crate::encoding::DimType;
use crate::encoding::DimTypeEncoding;
use crate::encoding::spec_size_bytes;
use crate::error::Error;

verus! {

/// One dimension of a point layout: its identifier, where its bytes sit
/// inside a packed point record, how wide they are, and how they are
/// encoded.
#[derive(Clone, Copy, PartialEq, Eq, Structural, Debug)]
pub struct LayoutDimension {
    pub id: DimTypeId,
    pub offset: usize,
    pub size: usize,
    pub encoding: DimTypeEncoding,
}

impl LayoutDimension {
    /// The dimension's identifier.
    pub fn id(&self) -> (r: DimTypeId)
        ensures
            r == self.id,
    {
        self.id
    }

    /// Size of the dimension in bytes.
    pub fn size_bytes(&self) -> (r: usize)
        ensures
            r == self.size,
    {
        self.size
    }

    /// Byte offset of the dimension inside a packed point record.
    pub fn offset(&self) -> (r: usize)
        ensures
            r == self.offset,
    {
        self.offset
    }

    /// The encoding the dimension's values are stored as.
    pub fn encoding(&self) -> (r: DimTypeEncoding)
        ensures
            r == self.encoding,
    {
        self.encoding
    }
}

/// Sum of the byte sizes of a sequence of layout dimensions.
pub open spec fn spec_total_size(dims: Seq<LayoutDimension>) -> int
    decreases dims.len(),
{
    if dims.len() == 0 {
        0
    } else {
        spec_total_size(dims.drop_last()) + dims.last().size
    }
}

/// Sum of the encoded byte sizes of a sequence of dimension types.
pub open spec fn spec_total_dim_size(dims: Seq<DimType>) -> int
    decreases dims.len(),
{
    if dims.len() == 0 {
        0
    } else {
        spec_total_dim_size(dims.drop_last()) + spec_size_bytes(dims.last().encoding)
    }
}

/// Well-formedness of a layout's dimension list against its point size:
/// every dimension has a specified encoding whose width its size matches,
/// identifiers are unique, the dimensions are packed back to back from
/// offset zero, and the point size is where the last dimension ends.
pub open spec fn spec_layout_wf(dims: Seq<LayoutDimension>, psize: int) -> bool {
    &&& forall|i: int|
        0 <= i < dims.len() ==> (#[trigger] dims[i]).encoding != DimTypeEncoding::Unspecified
            && dims[i].size == spec_size_bytes(dims[i].encoding)
    &&& forall|i: int, j: int|
        0 <= i < j < dims.len() ==> (#[trigger] dims[i]).id != (#[trigger] dims[j]).id
    &&& dims.len() == 0 ==> psize == 0
    &&& dims.len() > 0 ==> dims[0].offset == 0 && psize == dims.last().offset + dims.last().size
    &&& forall|i: int, j: int|
        #![trigger dims[i], dims[j]]
        0 <= i && j == i + 1 && j < dims.len() ==> dims[j].offset == dims[i].offset + dims[i].size
}

/// Whether a dimension with the identifier occurs in the list.
pub open spec fn spec_has_dim(dims: Seq<LayoutDimension>, id: DimTypeId) -> bool {
    exists|i: int| 0 <= i < dims.len() && (#[trigger] dims[i]).id == id
}

/// A point layout: the dimensions of a packed point record.
#[derive(Clone, Debug)]
pub struct PointLayout {
    dims: Vec<LayoutDimension>,
    point_size: usize,
}

impl View for PointLayout {
    type V = Seq<LayoutDimension>;

    closed spec fn view(&self) -> Seq<LayoutDimension> {
        self.dims@
    }
}

impl PointLayout {
    /// The layout's point byte size, at the spec level.
    pub closed spec fn spec_point_size(self) -> int {
        self.point_size as int
    }

    /// The layout is well formed.
    pub open spec fn wf(self) -> bool {
        spec_layout_wf(self@, self.spec_point_size())
    }

    /// Build a layout by packing the given dimension types back to back.
    /// Rejects unspecified encodings, repeated identifiers, and totals
    /// beyond the addressable range.
    pub fn new(dim_types: &Vec<DimType>) -> (r: Result<PointLayout, Error>)
        ensures
            r is Ok <==> {
                &&& forall|i: int|
                    0 <= i < dim_types@.len() ==> (#[trigger] dim_types@[i]).encoding
                        != DimTypeEncoding::Unspecified
                &&& forall|i: int, j: int|
                    0 <= i < j < dim_types@.len() ==> (#[trigger] dim_types@[i]).id != (
                    #[trigger] dim_types@[j]).id
                &&& spec_total_dim_size(dim_types@) <= usize::MAX
            },
            r matches Ok(l) ==> {
                &&& l.wf()
                &&& l@.len() == dim_types@.len()
                &&& forall|i: int|
                    0 <= i < dim_types@.len() ==> (#[trigger] l@[i]).id == dim_types@[i].id
                        && l@[i].encoding == dim_types@[i].encoding
            },
            r matches Err(e) ==> (e == Error::UnspecifiedEncoding || e
                == Error::DuplicateDimension || e == Error::LayoutOverflow),
    {
        let mut dims: Vec<LayoutDimension> = Vec::new();
        let mut point_size: usize = 0;
        let n = dim_types.len();
        let mut k: usize = 0;
        while k < n
            invariant
                n == dim_types@.len(),
                0 <= k <= n,
                dims@.len() == k,
                forall|i: int|
                    0 <= i < k ==> (#[trigger] dims@[i]).id == dim_types@[i].id && dims@[i].encoding
                        == dim_types@[i].encoding,
                forall|i: int|
                    0 <= i < k ==> (#[trigger] dims@[i]).encoding != DimTypeEncoding::Unspecified
                        && dims@[i].size == spec_size_bytes(dims@[i].encoding),
                forall|i: int, j: int|
                    0 <= i < j < k ==> (#[trigger] dims@[i]).id != (#[trigger] dims@[j]).id,
                k == 0 ==> point_size == 0,
                k > 0 ==> dims@[0].offset == 0 && point_size == dims@.last().offset
                    + dims@.last().size,
                forall|i: int, j: int|
                    #![trigger dims@[i], dims@[j]]
                    0 <= i && j == i + 1 && j < k ==> dims@[j].offset == dims@[i].offset
                        + dims@[i].size,
                point_size == spec_total_dim_size(dim_types@.subrange(0, k as int)),
            decreases n - k,
        {
            let dt = dim_types[k];
            if matches!(dt.encoding, DimTypeEncoding::Unspecified) {
                proof {
                    assert(dim_types@[k as int].encoding == DimTypeEncoding::Unspecified);
                }
                return Err(Error::UnspecifiedEncoding);
            }
            let mut j: usize = 0;
            while j < dims.len()
                invariant
                    n == dim_types@.len(),
                    0 <= k < n,
                    dims@.len() == k,
                    forall|i: int|
                        0 <= i < k ==> (#[trigger] dims@[i]).id == dim_types@[i].id,
                    0 <= j <= dims@.len(),
                    forall|i: int| 0 <= i < j ==> (#[trigger] dims@[i]).id != dt.id,
                    dt == dim_types@[k as int],
                decreases dims@.len() - j,
            {
                if dims[j].id == dt.id {
                    proof {
                        assert(dim_types@[j as int].id == dim_types@[k as int].id);
                    }
                    return Err(Error::DuplicateDimension);
                }
                j = j + 1;
            }
            let size = dt.encoding.size_bytes();
            if point_size > usize::MAX - size {
                proof {
                    lemma_total_dim_size_take_le(dim_types@, k as int);
                    assert(dim_types@.subrange(0, k as int).push(dim_types@[k as int]) =~= dim_types@.subrange(
                        0,
                        k as int + 1,
                    ));
                    lemma_total_dim_size_push(
                        dim_types@.subrange(0, k as int),
                        dim_types@[k as int],
                    );
                    lemma_total_dim_size_take_le(dim_types@, k as int + 1);
                }
                return Err(Error::LayoutOverflow);
            }
            let d = LayoutDimension { id: dt.id, offset: point_size, size, encoding: dt.encoding };
            dims.push(d);
            point_size = point_size + size;
            proof {
                assert(dim_types@.subrange(0, k as int).push(dim_types@[k as int]) =~= dim_types@.subrange(
                    0,
                    k as int + 1,
                ));
                lemma_total_dim_size_push(dim_types@.subrange(0, k as int), dim_types@[k as int]);
            }
            k = k + 1;
        }
        proof {
            assert(dim_types@.subrange(0, n as int) =~= dim_types@);
            assert forall|i: int, j: int| 0 <= i < j < dim_types@.len() implies (
            #[trigger] dim_types@[i]).id != (#[trigger] dim_types@[j]).id by {
                assert(dims@[i].id == dim_types@[i].id);
                assert(dims@[j].id == dim_types@[j].id);
            }
            assert forall|i: int| 0 <= i < dim_types@.len() implies (
            #[trigger] dim_types@[i]).encoding != DimTypeEncoding::Unspecified by {
                assert(dims@[i].encoding == dim_types@[i].encoding);
                assert(dims@[i].encoding != DimTypeEncoding::Unspecified);
            }
        }
        Ok(PointLayout { dims, point_size })
    }

    /// Size in bytes of one packed point record.
    pub fn point_size(&self) -> (r: usize)
        ensures
            r == self.spec_point_size(),
    {
        self.point_size
    }

    /// How many dimensions the layout holds.
    pub fn dimension_count(&self) -> (r: usize)
        ensures
            r == self@.len(),
    {
        self.dims.len()
    }

    /// The identifiers of the layout's dimensions, in layout order.
    pub fn dimension_ids(&self) -> (r: Vec<DimTypeId>)
        ensures
            r@ == self@.map(|i: int, d: LayoutDimension| d.id),
    {
        let mut ids: Vec<DimTypeId> = Vec::new();
        let mut k: usize = 0;
        while k < self.dims.len()
            invariant
                0 <= k <= self@.len(),
                ids@ == self@.subrange(0, k as int).map(|i: int, d: LayoutDimension| d.id),
            decreases self@.len() - k,
        {
            ids.push(self.dims[k].id);
            proof {
                assert(self@.subrange(0, k as int).push(self@[k as int]) =~= self@.subrange(
                    0,
                    k as int + 1,
                ));
                assert(ids@ =~= self@.subrange(0, k as int + 1).map(
                    |i: int, d: LayoutDimension| d.id,
                ));
            }
            k = k + 1;
        }
        proof {
            assert(self@.subrange(0, self@.len() as int) =~= self@);
        }
        ids
    }

    /// The layout's dimensions, in layout order.
    pub fn dimension_types(&self) -> (r: Vec<LayoutDimension>)
        ensures
            r@ == self@,
    {
        let mut out: Vec<LayoutDimension> = Vec::new();
        let mut k: usize = 0;
        while k < self.dims.len()
            invariant
                0 <= k <= self@.len(),
                out@ == self@.subrange(0, k as int),
            decreases self@.len() - k,
        {
            out.push(self.dims[k]);
            proof {
                assert(out@ =~= self@.subrange(0, k as int + 1));
            }
            k = k + 1;
        }
        proof {
            assert(self@.subrange(0, self@.len() as int) =~= self@);
        }
        out
    }

    /// Look the dimension up by identifier; `None` if the layout lacks it.
    pub fn dimension_type(&self, id: DimTypeId) -> (r: Option<LayoutDimension>)
        ensures
            r is Some <==> spec_has_dim(self@, id),
            r matches Some(d) ==> d.id == id && exists|i: int|
                0 <= i < self@.len() && (#[trigger] self@[i]) == d,
    {
        let mut k: usize = 0;
        while k < self.dims.len()
            invariant
                0 <= k <= self@.len(),
                forall|i: int| 0 <= i < k ==> (#[trigger] self@[i]).id != id,
            decreases self@.len() - k,
        {
            if self.dims[k].id == id {
                return Some(self.dims[k]);
            }
            k = k + 1;
        }
        None
    }

    /// Size in bytes of the dimension in this layout; 0 if the layout
    /// lacks it.
    pub fn dimension_size(&self, id: DimTypeId) -> (r: usize)
        ensures
            spec_has_dim(self@, id) ==> exists|i: int|
                0 <= i < self@.len() && (#[trigger] self@[i]).id == id && r == self@[i].size,
            !spec_has_dim(self@, id) ==> r == 0,
    {
        match self.dimension_type(id) {
            Some(d) => d.size,
            None => 0,
        }
    }

    /// Byte offset of the dimension in this layout; 0 if the layout lacks
    /// it.
    pub fn dimension_offset(&self, id: DimTypeId) -> (r: usize)
        ensures
            spec_has_dim(self@, id) ==> exists|i: int|
                0 <= i < self@.len() && (#[trigger] self@[i]).id == id && r == self@[i].offset,
            !spec_has_dim(self@, id) ==> r == 0,
    {
        match self.dimension_type(id) {
            Some(d) => d.offset,
            None => 0,
        }
    }
}

/// Summing a pushed element.
proof fn lemma_total_size_push(s: Seq<LayoutDimension>, d: LayoutDimension)
    ensures
        spec_total_size(s.push(d)) == spec_total_size(s) + d.size,
{
    assert(s.push(d).drop_last() =~= s);
}

/// Summing a pushed dimension type.
proof fn lemma_total_dim_size_push(s: Seq<DimType>, d: DimType)
    ensures
        spec_total_dim_size(s.push(d)) == spec_total_dim_size(s) + spec_size_bytes(d.encoding),
{
    assert(s.push(d).drop_last() =~= s);
}

/// A prefix never sums to more than the whole.
proof fn lemma_total_dim_size_take_le(s: Seq<DimType>, k: int)
    requires
        0 <= k <= s.len(),
    ensures
        spec_total_dim_size(s.subrange(0, k)) <= spec_total_dim_size(s),
    decreases s.len(),
{
    if k == s.len() {
        assert(s.subrange(0, k) =~= s);
    } else {
        assert(s.drop_last().subrange(0, k) =~= s.subrange(0, k));
        lemma_total_dim_size_take_le(s.drop_last(), k);
    }
}

/// Packed dimensions account for every byte: in a well-formed layout the
/// point byte size equals the sum of the dimensions' byte sizes.
pub proof fn lemma_point_size_accounting(l: PointLayout)
    requires
        l.wf(),
    ensures
        l.spec_point_size() == spec_total_size(l@),
{
    if l@.len() > 0 {
        lemma_contiguous_sum(l@);
    }
}

/// In a back-to-back packing that starts at offset zero, the sum of all
/// sizes is where the last dimension ends.
proof fn lemma_contiguous_sum(dims: Seq<LayoutDimension>)
    requires
        dims.len() > 0,
        dims[0].offset == 0,
        forall|i: int, j: int|
            #![trigger dims[i], dims[j]]
            0 <= i && j == i + 1 && j < dims.len() ==> dims[j].offset == dims[i].offset
                + dims[i].size,
    ensures
        spec_total_size(dims) == dims.last().offset + dims.last().size,
    decreases dims.len(),
{
    if dims.len() == 1 {
        assert(dims.drop_last() =~= Seq::<LayoutDimension>::empty());
        assert(spec_total_size(Seq::<LayoutDimension>::empty()) == 0);
        assert(dims.last() == dims[0]);
    } else {
        let prefix = dims.drop_last();
        assert(prefix[0] == dims[0]);
        assert forall|i: int, j: int|
            #![trigger prefix[i], prefix[j]]
            0 <= i && j == i + 1 && j < prefix.len() implies prefix[j].offset == prefix[i].offset
            + prefix[i].size by {
            assert(dims[j].offset == dims[i].offset + dims[i].size);
        }
        lemma_contiguous_sum(prefix);
        assert(prefix.last() == dims[dims.len() - 2]);
        assert(dims.last().offset == dims[dims.len() - 2].offset + dims[dims.len() - 2].size);
    }
}

/// Every dimension of a well-formed layout lies inside the point record:
/// its offset plus its size never passes the layout's point byte size.
pub proof fn lemma_dim_within_point_size(l: PointLayout, i: int)
    requires
        l.wf(),
        0 <= i < l@.len(),
    ensures
        l@[i].offset + l@[i].size <= l.spec_point_size(),
{
    lemma_offset_size_le(l@, l.spec_point_size(), i);
}

/// In a contiguous packing, each dimension ends at or before the point
/// size.
proof fn lemma_offset_size_le(dims: Seq<LayoutDimension>, psize: int, i: int)
    requires
        0 <= i < dims.len(),
        psize == dims.last().offset + dims.last().size,
        forall|i: int, j: int|
            #![trigger dims[i], dims[j]]
            0 <= i && j == i + 1 && j < dims.len() ==> dims[j].offset == dims[i].offset
                + dims[i].size,
    ensures
        dims[i].offset + dims[i].size <= psize,
    decreases dims.len() - i,
{
    if i < dims.len() - 1 {
        assert(dims[i + 1].offset == dims[i].offset + dims[i].size);
        lemma_offset_size_le(dims, psize, i + 1);
    }
}

} // verus!
