//! Dimension sizes of the host's multi-dimensional arrays.
use vstd::prelude::*;

use crate::errors::{InternalError, LVInteropError, Result};

verus! {

/// The product of a list of dimension sizes: the number of elements of an
/// array of that shape (one for no dimension at all).
pub open spec fn shape_count(shape: Seq<i32>) -> int
    decreases shape.len(),
{
    if shape.len() == 0 {
        1
    } else {
        shape_count(shape.drop_last()) * shape.last() as int
    }
}

/// True where no dimension size is negative.
pub open spec fn shape_nonnegative(shape: Seq<i32>) -> bool {
    forall|i: int| 0 <= i < shape.len() ==> shape[i] >= 0
}

/// True where every size fits the positive range of `i32`.
pub open spec fn sizes_in_range(sizes: Seq<usize>) -> bool {
    forall|i: int| 0 <= i < sizes.len() ==> sizes[i] <= i32::MAX
}

/// Sizes in the host's dimension type.
pub open spec fn dims_of_sizes(sizes: Seq<usize>) -> Seq<i32> {
    Seq::new(sizes.len(), |i: int| sizes[i] as i32)
}

/// The sizes of the `D` dimensions of a host array, in the host's signed
/// 32-bit dimension type.
#[derive(Debug, Clone, Copy, PartialEq, Eq)]
pub struct LVArrayDims<const D: usize>(pub [i32; D]);

impl<const D: usize> LVArrayDims<D> {
    /// The sizes as a sequence.
    pub open spec fn view(&self) -> Seq<i32> {
        self.0@
    }

    /// Dimensions of size zero: an empty array.
    pub fn new_empty() -> (r: Self)
        ensures
            r@ =~= Seq::new(D as nat, |i: int| 0i32),
    {
        LVArrayDims([0i32; D])
    }

    /// The sizes of the dimensions.
    pub fn shape(&self) -> (r: [i32; D])
        ensures
            r@ == self@,
    {
        self.0
    }

    /// The number of elements: the product of the sizes.
    pub fn element_count(&self) -> (r: usize)
        requires
            shape_nonnegative(self@),
            shape_count(self@) <= usize::MAX,
        ensures
            r == shape_count(self@),
    {
        let mut j: usize = 0;
        while j < D
            invariant
                j <= D,
                self@.len() == D,
                forall|k: int| 0 <= k < j ==> self@[k] != 0,
            decreases D - j,
        {
            if self.0[j] == 0 {
                proof {
                    lemma_zero_size_count(self@, j as int);
                }
                return 0;
            }
            j = j + 1;
        }
        let mut count: usize = 1;
        let mut i: usize = 0;
        while i < D
            invariant
                i <= D,
                self@.len() == D,
                forall|k: int| 0 <= k < D ==> self@[k] >= 1,
                shape_count(self@) <= usize::MAX,
                count == shape_count(self@.take(i as int)),
            decreases D - i,
        {
            proof {
                assert(self@.take(i as int + 1).drop_last() =~= self@.take(i as int));
                lemma_prefix_count_bounded(self@, i as int + 1);
            }
            count = count * (self.0[i] as usize);
            i = i + 1;
        }
        proof {
            assert(self@.take(D as int) =~= self@);
        }
        count
    }
}

impl<const D: usize> LVArrayDims<D> {
    /// Converts sizes into dimensions: fails with
    /// `ArrayDimensionsOutOfRange` where a size exceeds the positive range
    /// of `i32`.
    pub fn from_sizes(sizes: &[usize; D]) -> (r: Result<Self>)
        ensures
            sizes_in_range(sizes@) ==> (r matches Ok(dims) && dims@ == dims_of_sizes(sizes@)),
            !sizes_in_range(sizes@) ==> r == Err::<Self, LVInteropError>(
                LVInteropError::InternalError(InternalError::ArrayDimensionsOutOfRange),
            ),
    {
        let mut dims = [0i32; D];
        let mut i: usize = 0;
        while i < D
            invariant
                i <= D,
                dims@.len() == D,
                sizes@.len() == D,
                forall|k: int| 0 <= k < i ==> #[trigger] sizes@[k] <= i32::MAX,
                forall|k: int| 0 <= k < i ==> #[trigger] dims@[k] == sizes@[k] as i32,
            decreases D - i,
        {
            if sizes[i] > i32::MAX as usize {
                return Err(LVInteropError::InternalError(InternalError::ArrayDimensionsOutOfRange));
            }
            dims[i] = sizes[i] as i32;
            i = i + 1;
        }
        proof {
            assert(dims@ =~= dims_of_sizes(sizes@));
        }
        Ok(LVArrayDims(dims))
    }

    /// Converts a list of sizes into dimensions: fails with
    /// `ArrayDimensionMismatch` where the list does not hold exactly `D`
    /// sizes, and with `ArrayDimensionsOutOfRange` where a size exceeds the
    /// positive range of `i32`.
    pub fn from_size_slice(sizes: &[usize]) -> (r: Result<Self>)
        ensures
            sizes@.len() != D ==> r == Err::<Self, LVInteropError>(
                LVInteropError::InternalError(InternalError::ArrayDimensionMismatch),
            ),
            sizes@.len() == D && sizes_in_range(sizes@) ==> (r matches Ok(dims) && dims@
                == dims_of_sizes(sizes@)),
            sizes@.len() == D && !sizes_in_range(sizes@) ==> r
                == Err::<Self, LVInteropError>(
                LVInteropError::InternalError(InternalError::ArrayDimensionsOutOfRange),
            ),
    {
        if sizes.len() != D {
            return Err(LVInteropError::InternalError(InternalError::ArrayDimensionMismatch));
        }
        let mut dims = [0i32; D];
        let mut i: usize = 0;
        while i < D
            invariant
                i <= D,
                dims@.len() == D,
                sizes@.len() == D,
                forall|k: int| 0 <= k < i ==> #[trigger] sizes@[k] <= i32::MAX,
                forall|k: int| 0 <= k < i ==> #[trigger] dims@[k] == sizes@[k] as i32,
            decreases D - i,
        {
            if sizes[i] > i32::MAX as usize {
                return Err(LVInteropError::InternalError(InternalError::ArrayDimensionsOutOfRange));
            }
            dims[i] = sizes[i] as i32;
            i = i + 1;
        }
        proof {
            assert(dims@ =~= dims_of_sizes(sizes@));
        }
        Ok(LVArrayDims(dims))
    }

    /// The sizes as unsigned values.
    pub fn sizes(&self) -> (r: [usize; D])
        requires
            shape_nonnegative(self@),
        ensures
            r@ =~= Seq::new(D as nat, |i: int| self@[i] as usize),
    {
        let mut out = [0usize; D];
        let mut i: usize = 0;
        while i < D
            invariant
                i <= D,
                out@.len() == D,
                self@.len() == D,
                shape_nonnegative(self@),
                forall|k: int| 0 <= k < i ==> out@[k] == self@[k] as usize,
            decreases D - i,
        {
            out[i] = self.0[i] as usize;
            i = i + 1;
        }
        out
    }
}

impl<const D: usize> From<[i32; D]> for LVArrayDims<D> {
    fn from(sizes: [i32; D]) -> (r: LVArrayDims<D>) {
        LVArrayDims(sizes)
    }
}

impl<const D: usize> vstd::std_specs::convert::FromSpecImpl<[i32; D]> for LVArrayDims<D> {
    open spec fn obeys_from_spec() -> bool {
        true
    }

    open spec fn from_spec(sizes: [i32; D]) -> LVArrayDims<D> {
        LVArrayDims(sizes)
    }
}

impl LVArrayDims<2> {
    /// The number of rows: the first size.
    pub fn rows(&self) -> (r: i32)
        ensures
            r == self@[0],
    {
        self.0[0]
    }

    /// The number of columns: the second size.
    pub fn columns(&self) -> (r: i32)
        ensures
            r == self@[1],
    {
        self.0[1]
    }
}

impl LVArrayDims<3> {
    /// The number of rows: the second size.
    pub fn rows(&self) -> (r: i32)
        ensures
            r == self@[1],
    {
        self.0[1]
    }

    /// The number of columns: the third size.
    pub fn columns(&self) -> (r: i32)
        ensures
            r == self@[2],
    {
        self.0[2]
    }

    /// The number of pages: the first size.
    pub fn pages(&self) -> (r: i32)
        ensures
            r == self@[0],
    {
        self.0[0]
    }
}

/// A shape with a dimension of size zero holds no element.
pub(crate) proof fn lemma_zero_size_count(shape: Seq<i32>, j: int)
    requires
        0 <= j < shape.len(),
        shape[j] == 0,
    ensures
        shape_count(shape) == 0,
    decreases shape.len(),
{
    let init = shape.drop_last();
    let c = shape_count(init);
    if j == shape.len() - 1 {
        assert(c * 0 == 0) by (nonlinear_arith);
    } else {
        lemma_zero_size_count(init, j);
        let l = shape.last() as int;
        assert(0 * l == 0) by (nonlinear_arith);
    }
}

/// Where every size is at least one, each prefix's product is at least one
/// and at most the whole product.
pub(crate) proof fn lemma_prefix_count_bounded(shape: Seq<i32>, k: int)
    requires
        0 <= k <= shape.len(),
        forall|i: int| 0 <= i < shape.len() ==> shape[i] >= 1,
    ensures
        1 <= shape_count(shape.take(k)) <= shape_count(shape),
    decreases shape.len(),
{
    if shape.len() == 0 {
        assert(shape.take(k) =~= shape);
    } else {
        let init = shape.drop_last();
        let last = shape.last() as int;
        lemma_prefix_count_bounded(init, init.len() as int);
        assert(init.take(init.len() as int) =~= init);
        let c = shape_count(init);
        assert(c * last >= c) by (nonlinear_arith)
            requires
                last >= 1,
                c >= 1,
        ;
        if k == shape.len() {
            assert(shape.take(k) =~= shape);
        } else {
            assert(init.take(k) =~= shape.take(k));
            lemma_prefix_count_bounded(init, k);
        }
    }
}

} // verus!
