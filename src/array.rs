//! The host's multi-dimensional numeric arrays.
//!
//! An array block holds the `D` dimension sizes as 32-bit integers, least
//! significant byte first, then the elements in row-major order. The first
//! element follows the sizes directly in the packed 32-bit layout and is
//! aligned to its own size in the natural 64-bit layout.
use vstd::bytes::*;
use vstd::prelude::*;

use crate::dims::{shape_count, shape_nonnegative, LVArrayDims};
use crate::errors::{specific_error, InternalError, LVInteropError, Result};
use crate::host::{
    released, MEMORY_FULL_ERROR, array_block_size, array_data_offset, array_resize_outcome, element_size_of,
    array_block_size_of, no_api, no_api_error, type_code_size, Abi, HostMemoryView, MemoryManager,
};
use crate::host::overwrite;
use crate::memory::{creation_failed, host_failure, invalid_handle, LVCopy, OwnedUHandle, UHandle};
use crate::mg_error::MgError;
use crate::status::LVStatusCode;

verus! {

/// Numeric element types that the host can resize arrays of, with the type
/// code the host knows them by and their bytes, least significant first.
pub trait NumericArrayResizable: Sized + Copy {
    /// The host's type code.
    spec fn spec_type_code() -> i32;

    /// The element's bytes.
    spec fn spec_to_bytes(self) -> Seq<u8>;

    /// The element that `bytes` hold.
    spec fn spec_from_bytes(bytes: Seq<u8>) -> Self;

    /// The host's type code, which gives the element's size.
    fn type_code() -> (r: i32)
        ensures
            r == Self::spec_type_code(),
            1 <= type_code_size(r) <= 8,
    ;

    /// The element's bytes.
    fn to_bytes(&self) -> (r: Vec<u8>)
        ensures
            r@ == self.spec_to_bytes(),
            r@.len() == type_code_size(Self::spec_type_code()),
    ;

    /// The element that `bytes` hold.
    fn from_bytes(bytes: &[u8]) -> (r: Self)
        requires
            bytes@.len() == type_code_size(Self::spec_type_code()),
        ensures
            r == Self::spec_from_bytes(bytes@),
    ;

    /// The host knows the type code, and its elements take one to eight
    /// bytes.
    proof fn lemma_type_code_known()
        ensures
            1 <= type_code_size(Self::spec_type_code()) <= 8,
    ;

    /// Reading an element's bytes gives the element back.
    proof fn lemma_bytes_round_trip(v: Self)
        ensures
            Self::spec_from_bytes(v.spec_to_bytes()) == v,
            v.spec_to_bytes().len() == type_code_size(Self::spec_type_code()),
    ;
}

impl NumericArrayResizable for i32 {
    open spec fn spec_type_code() -> i32 {
        3
    }

    open spec fn spec_to_bytes(self) -> Seq<u8> {
        spec_u32_to_le_bytes(self as u32)
    }

    open spec fn spec_from_bytes(bytes: Seq<u8>) -> i32 {
        spec_u32_from_le_bytes(bytes) as i32
    }

    fn type_code() -> (r: i32) {
        3
    }

    fn to_bytes(&self) -> (r: Vec<u8>) {
        u32_to_le_bytes(*self as u32)
    }

    fn from_bytes(bytes: &[u8]) -> (r: i32) {
        u32_from_le_bytes(bytes) as i32
    }

    proof fn lemma_type_code_known() {
    }

    proof fn lemma_bytes_round_trip(v: i32) {
        lemma_auto_spec_u32_to_from_le_bytes();
        assert(v as u32 as i32 == v) by (bit_vector);
    }
}

impl NumericArrayResizable for u32 {
    open spec fn spec_type_code() -> i32 {
        7
    }

    open spec fn spec_to_bytes(self) -> Seq<u8> {
        spec_u32_to_le_bytes(self)
    }

    open spec fn spec_from_bytes(bytes: Seq<u8>) -> u32 {
        spec_u32_from_le_bytes(bytes)
    }

    fn type_code() -> (r: i32) {
        7
    }

    fn to_bytes(&self) -> (r: Vec<u8>) {
        u32_to_le_bytes(*self)
    }

    fn from_bytes(bytes: &[u8]) -> (r: u32) {
        u32_from_le_bytes(bytes)
    }

    proof fn lemma_type_code_known() {
    }

    proof fn lemma_bytes_round_trip(v: u32) {
        lemma_auto_spec_u32_to_from_le_bytes();
        assert(spec_u32_to_le_bytes(v).len() == 4);
        assert(spec_u32_from_le_bytes(spec_u32_to_le_bytes(v)) == v);
    }
}

impl NumericArrayResizable for i64 {
    open spec fn spec_type_code() -> i32 {
        4
    }

    open spec fn spec_to_bytes(self) -> Seq<u8> {
        spec_u64_to_le_bytes(self as u64)
    }

    open spec fn spec_from_bytes(bytes: Seq<u8>) -> i64 {
        spec_u64_from_le_bytes(bytes) as i64
    }

    fn type_code() -> (r: i32) {
        4
    }

    fn to_bytes(&self) -> (r: Vec<u8>) {
        u64_to_le_bytes(*self as u64)
    }

    fn from_bytes(bytes: &[u8]) -> (r: i64) {
        u64_from_le_bytes(bytes) as i64
    }

    proof fn lemma_type_code_known() {
    }

    proof fn lemma_bytes_round_trip(v: i64) {
        lemma_auto_spec_u64_to_from_le_bytes();
        assert(v as u64 as i64 == v) by (bit_vector);
    }
}

impl NumericArrayResizable for u64 {
    open spec fn spec_type_code() -> i32 {
        8
    }

    open spec fn spec_to_bytes(self) -> Seq<u8> {
        spec_u64_to_le_bytes(self)
    }

    open spec fn spec_from_bytes(bytes: Seq<u8>) -> u64 {
        spec_u64_from_le_bytes(bytes)
    }

    fn type_code() -> (r: i32) {
        8
    }

    fn to_bytes(&self) -> (r: Vec<u8>) {
        u64_to_le_bytes(*self)
    }

    fn from_bytes(bytes: &[u8]) -> (r: u64) {
        u64_from_le_bytes(bytes)
    }

    proof fn lemma_type_code_known() {
    }

    proof fn lemma_bytes_round_trip(v: u64) {
        lemma_auto_spec_u64_to_from_le_bytes();
        assert(spec_u64_to_le_bytes(v).len() == 8);
        assert(spec_u64_from_le_bytes(spec_u64_to_le_bytes(v)) == v);
    }
}

impl NumericArrayResizable for i8 {
    open spec fn spec_type_code() -> i32 {
        1
    }

    open spec fn spec_to_bytes(self) -> Seq<u8> {
        seq![self as u8]
    }

    open spec fn spec_from_bytes(bytes: Seq<u8>) -> i8 {
        bytes[0] as i8
    }

    fn type_code() -> (r: i32) {
        1
    }

    fn to_bytes(&self) -> (r: Vec<u8>) {
        let mut r: Vec<u8> = Vec::new();
        r.push(*self as u8);
        proof {
            assert(r@ =~= seq![*self as u8]);
        }
        r
    }

    fn from_bytes(bytes: &[u8]) -> (r: i8) {
        bytes[0] as i8
    }

    proof fn lemma_type_code_known() {
    }

    proof fn lemma_bytes_round_trip(v: i8) {
        assert(v as u8 as i8 == v) by (bit_vector);
    }
}

impl NumericArrayResizable for i16 {
    open spec fn spec_type_code() -> i32 {
        2
    }

    open spec fn spec_to_bytes(self) -> Seq<u8> {
        spec_u16_to_le_bytes(self as u16)
    }

    open spec fn spec_from_bytes(bytes: Seq<u8>) -> i16 {
        spec_u16_from_le_bytes(bytes) as i16
    }

    fn type_code() -> (r: i32) {
        2
    }

    fn to_bytes(&self) -> (r: Vec<u8>) {
        u16_to_le_bytes(*self as u16)
    }

    fn from_bytes(bytes: &[u8]) -> (r: i16) {
        u16_from_le_bytes(bytes) as i16
    }

    proof fn lemma_type_code_known() {
    }

    proof fn lemma_bytes_round_trip(v: i16) {
        lemma_auto_spec_u16_to_from_le_bytes();
        assert(spec_u16_to_le_bytes(v as u16).len() == 2);
        assert(v as u16 as i16 == v) by (bit_vector);
    }
}

impl NumericArrayResizable for u16 {
    open spec fn spec_type_code() -> i32 {
        6
    }

    open spec fn spec_to_bytes(self) -> Seq<u8> {
        spec_u16_to_le_bytes(self)
    }

    open spec fn spec_from_bytes(bytes: Seq<u8>) -> u16 {
        spec_u16_from_le_bytes(bytes)
    }

    fn type_code() -> (r: i32) {
        6
    }

    fn to_bytes(&self) -> (r: Vec<u8>) {
        u16_to_le_bytes(*self)
    }

    fn from_bytes(bytes: &[u8]) -> (r: u16) {
        u16_from_le_bytes(bytes)
    }

    proof fn lemma_type_code_known() {
    }

    proof fn lemma_bytes_round_trip(v: u16) {
        lemma_auto_spec_u16_to_from_le_bytes();
        assert(spec_u16_to_le_bytes(v).len() == 2);
        assert(spec_u16_from_le_bytes(spec_u16_to_le_bytes(v)) == v);
    }
}

impl NumericArrayResizable for u8 {
    open spec fn spec_type_code() -> i32 {
        5
    }

    open spec fn spec_to_bytes(self) -> Seq<u8> {
        seq![self]
    }

    open spec fn spec_from_bytes(bytes: Seq<u8>) -> u8 {
        bytes[0]
    }

    fn type_code() -> (r: i32) {
        5
    }

    fn to_bytes(&self) -> (r: Vec<u8>) {
        let mut r: Vec<u8> = Vec::new();
        r.push(*self);
        proof {
            assert(r@ =~= seq![*self]);
        }
        r
    }

    fn from_bytes(bytes: &[u8]) -> (r: u8) {
        bytes[0]
    }

    proof fn lemma_type_code_known() {
    }

    proof fn lemma_bytes_round_trip(v: u8) {
    }
}

} // verus!

verus! {

/// The dimension sizes that an array block's header holds.
pub open spec fn header_dims(block: Seq<u8>, d: nat) -> Seq<i32> {
    Seq::new(d, |i: int| spec_u32_from_le_bytes(block.subrange(4 * i, 4 * i + 4)) as i32)
}

/// The header bytes of the dimension sizes `dims`.
pub open spec fn dims_bytes(dims: Seq<i32>) -> Seq<u8>
    decreases dims.len(),
{
    if dims.len() == 0 {
        Seq::empty()
    } else {
        dims_bytes(dims.drop_last()) + spec_u32_to_le_bytes(dims.last() as u32)
    }
}

/// True of an array block that holds its header and every element that its
/// dimension sizes call for.
pub open spec fn array_well_formed(block: Seq<u8>, d: nat, elem: int, abi: Abi) -> bool {
    &&& 4 * d <= block.len()
    &&& shape_nonnegative(header_dims(block, d))
    &&& array_block_size(d as int, elem, shape_count(header_dims(block, d)), abi) <= block.len()
}

/// The number of elements of a well-formed array block.
pub open spec fn array_count(block: Seq<u8>, d: nat) -> int {
    shape_count(header_dims(block, d))
}

/// The bytes of element `i` of an array block.
pub open spec fn element_bytes(block: Seq<u8>, d: nat, elem: int, abi: Abi, i: int) -> Seq<u8> {
    let start = array_data_offset(d as int, elem, abi) + i * elem;
    block.subrange(start, start + elem)
}

/// True where the natural 64-bit layout is in force and the block at
/// `addr` has a header that holds `dims`.
pub open spec fn header_matches(mem: HostMemoryView, addr: usize, d: nat, dims: Seq<i32>) -> bool {
    &&& mem.abi == Abi::Natural64
    &&& mem.contents(addr) matches Some(b) && 4 * d <= b.len() && header_dims(b, d) == dims
}

/// The handle's array block, where it is well formed for `D` dimensions of
/// elements of `T`.
pub open spec fn array_block<const D: usize, T: NumericArrayResizable>(
    mem: HostMemoryView,
    addr: usize,
) -> Option<Seq<u8>> {
    match mem.contents(addr) {
        Some(b) => if array_well_formed(b, D as nat, type_code_size(T::spec_type_code()), mem.abi) {
            Some(b)
        } else {
            None
        },
        None => None,
    }
}

/// A handle to a host array of `D` dimensions with elements of `T`.
pub type LVArrayHandle<const D: usize, T> = UHandle<LVArray<D, T>>;

/// An owned handle to a host array.
pub type LVArrayOwned<const D: usize, T> = OwnedUHandle<LVArray<D, T>>;

/// A host array read out of its block: its dimension sizes and its elements
/// in row-major order.
pub struct LVArray<const D: usize, T> {
    dims: LVArrayDims<D>,
    data: Vec<T>,
}

/// The elements of a well-formed array block, in row-major order.
pub open spec fn array_elements<T: NumericArrayResizable>(block: Seq<u8>, d: nat, abi: Abi) -> Seq<T> {
    Seq::new(
        array_count(block, d) as nat,
        |i: int|
            T::spec_from_bytes(
                element_bytes(block, d, type_code_size(T::spec_type_code()), abi, i),
            ),
    )
}

impl<const D: usize, T: NumericArrayResizable> LVArray<D, T> {
    /// The dimension sizes.
    pub closed spec fn spec_dims(&self) -> Seq<i32> {
        self.dims@
    }

    /// The elements, in row-major order.
    pub closed spec fn spec_data(&self) -> Seq<T> {
        self.data@
    }

    /// The array's invariant: it holds as many elements as the product of
    /// its dimension sizes.
    pub open spec fn wf(&self) -> bool {
        &&& shape_nonnegative(self.spec_dims())
        &&& self.spec_data().len() == shape_count(self.spec_dims())
    }

    /// The dimension sizes.
    pub fn dimension_sizes(&self) -> (r: LVArrayDims<D>)
        ensures
            r@ == self.spec_dims(),
    {
        self.dims
    }

    /// The number of elements: the product of the dimension sizes.
    pub fn element_count(&self) -> (r: usize)
        ensures
            r == self.spec_data().len(),
            self.wf() ==> r == shape_count(self.spec_dims()),
    {
        self.data.len()
    }

    /// Element `index`, in row-major order.
    pub fn get_value_unchecked(&self, index: usize) -> (r: T)
        requires
            index < self.spec_data().len(),
        ensures
            r == self.spec_data()[index as int],
    {
        self.data[index]
    }

    /// Sets element `index`, in row-major order, to `value`.
    pub fn set_value_unchecked(&mut self, index: usize, value: T)
        requires
            index < old(self).spec_data().len(),
        ensures
            final(self).spec_dims() == old(self).spec_dims(),
            final(self).spec_data() == old(self).spec_data().update(index as int, value),
            old(self).wf() ==> final(self).wf(),
    {
        self.data.set(index, value);
    }

    /// The elements of this copy of the array, in row-major order, for
    /// editing. The host's block is not changed; `set_value_unchecked` on a
    /// handle stores an element back.
    pub fn data_as_slice_mut(&mut self) -> (r: &mut [T])
        ensures
            r@ == old(self).spec_data(),
            final(self).spec_data() == final(r)@,
            final(self).spec_dims() == old(self).spec_dims(),
    {
        self.data.as_mut_slice()
    }

    /// The elements, in row-major order.
    pub fn data_as_slice(&self) -> (r: &[T])
        ensures
            r@ == self.spec_data(),
    {
        self.data.as_slice()
    }
}

/// Where element `i` starts and ends in an array block.
fn element_range(d: usize, elem: usize, abi: Abi, i: usize, block_len: usize) -> (r: (usize, usize))
    requires
        1 <= elem <= 8,
        array_data_offset(d as int, elem as int, abi) + (i + 1) * elem <= block_len,
    ensures
        r.0 == array_data_offset(d as int, elem as int, abi) + i * elem,
        r.1 == r.0 + elem,
{
    let header = d * 4;
    let offset = match abi {
        Abi::Packed32 => header,
        Abi::Natural64 => if elem <= 1 || header % elem == 0 {
            header
        } else {
            header + (elem - header % elem)
        },
    };
    proof {
        assert((i + 1) * elem == i * elem + elem) by (nonlinear_arith);
        assert(i * elem >= 0) by (nonlinear_arith);
    }
    let start = offset + i * elem;
    (start, start + elem)
}

/// Element `i` lies inside a well-formed block with more than `i` elements.
proof fn lemma_element_in_block(block: Seq<u8>, d: nat, elem: int, abi: Abi, i: int)
    requires
        1 <= elem <= 8,
        array_well_formed(block, d, elem, abi),
        0 <= i < array_count(block, d),
    ensures
        array_data_offset(d as int, elem, abi) + (i + 1) * elem <= block.len(),
        array_data_offset(d as int, elem, abi) >= 4 * d,
{
    let n = array_count(block, d);
    assert((i + 1) * elem <= n * elem) by (nonlinear_arith)
        requires
            i + 1 <= n,
            elem >= 1,
    ;
}

impl<const D: usize, T: NumericArrayResizable> UHandle<LVArray<D, T>> {
    /// The dimension sizes in the array's header. Fails with
    /// `InvalidHandle` where the handle reaches no block or one too short
    /// for the header.
    pub fn dimension_sizes<M: MemoryManager>(&self, mem: &M) -> (r: Result<LVArrayDims<D>>)
        requires
            D <= i32::MAX,
        ensures
            match mem@.contents(self.addr) {
                Some(b) => if 4 * D <= b.len() {
                    r matches Ok(dims) && dims@ == header_dims(b, D as nat)
                } else {
                    r == Err::<LVArrayDims<D>, LVInteropError>(invalid_handle())
                },
                None => r == Err::<LVArrayDims<D>, LVInteropError>(invalid_handle()),
            },
    {
        let block = match self.as_ref(mem) {
            Ok(b) => b,
            Err(e) => {
                return Err(e);
            },
        };
        let block_len = block.len();
        if block_len / 4 < D {
            return Err(LVInteropError::InternalError(InternalError::InvalidHandle));
        }
        let mut dims = [0i32; D];
        let mut i: usize = 0;
        while i < D
            invariant
                i <= D,
                4 * D <= block_len,
                block_len == block@.len(),
                dims@.len() == D,
                forall|k: int| 0 <= k < i ==> #[trigger] dims@[k] == header_dims(block@, D as nat)[k],
            decreases D - i,
        {
            let v = u32_from_le_bytes(&block[4 * i..4 * i + 4]);
            dims[i] = #[verifier::truncate] (v as i32);
            i = i + 1;
        }
        proof {
            assert(dims@ =~= header_dims(block@, D as nat));
        }
        Ok(LVArrayDims(dims))
    }

    /// The number of elements: the product of the dimension sizes. Fails
    /// with `InvalidHandle` where the block is not a well-formed array.
    pub fn element_count<M: MemoryManager>(&self, mem: &M) -> (r: Result<usize>)
        requires
            D <= i32::MAX,
        ensures
            match array_block::<D, T>(mem@, self.addr) {
                Some(b) => r matches Ok(n) && n == array_count(b, D as nat),
                None => r == Err::<usize, LVInteropError>(invalid_handle()),
            },
    {
        let dims = match self.dimension_sizes(mem) {
            Ok(d) => d,
            Err(e) => {
                return Err(e);
            },
        };
        let block = match self.as_ref(mem) {
            Ok(b) => b,
            Err(e) => {
                return Err(e);
            },
        };
        let block_len = block.len();
        proof {
            assert(dims@ == header_dims(block@, D as nat));
            assert(mem@.contents(self.addr) == Some(block@));
        }
        let mut j: usize = 0;
        let mut has_zero = false;
        while j < D
            invariant
                j <= D,
                dims@.len() == D,
                dims@ == header_dims(block@, D as nat),
                mem@.contents(self.addr) == Some(block@),
                forall|k: int| 0 <= k < j ==> #[trigger] dims@[k] >= 0,
                has_zero ==> exists|k: int| 0 <= k < j && dims@[k] == 0,
                !has_zero ==> forall|k: int| 0 <= k < j ==> #[trigger] dims@[k] != 0,
            decreases D - j,
        {
            if dims.0[j] < 0 {
                proof {
                    assert(header_dims(block@, D as nat)[j as int] < 0);
                    assert(!shape_nonnegative(header_dims(block@, D as nat)));
                    assert(mem@.contents(self.addr) == Some(block@));
                    assert(!array_well_formed(block@, D as nat, type_code_size(T::spec_type_code()), mem@.abi));
                    assert(array_block::<D, T>(mem@, self.addr) is None);
                }
                return Err(LVInteropError::InternalError(InternalError::InvalidHandle));
            }
            if dims.0[j] == 0 {
                has_zero = true;
            }
            j = j + 1;
        }
        let code = T::type_code();
        let elem = element_size_of(code);
        proof {
            assert(1 <= elem <= 8);
            assert(dims@ == header_dims(block@, D as nat));
        }
        let mut count: usize = 0;
        if has_zero {
            proof {
                let k = choose|k: int| 0 <= k < D && dims@[k] == 0;
                crate::dims::lemma_zero_size_count(dims@, k);
            }
        } else {
            count = 1;
            let mut i: usize = 0;
            while i < D
                invariant
                    i <= D,
                    dims@.len() == D,
                    forall|k: int| 0 <= k < D ==> #[trigger] dims@[k] >= 1,
                    count == shape_count(dims@.take(i as int)),
                    1 <= elem <= 8,
                    block@.len() == block_len,
                    elem == type_code_size(T::spec_type_code()),
                    dims@ == header_dims(block@, D as nat),
                    mem@.contents(self.addr) == Some(block@),
                decreases D - i,
            {
                proof {
                    assert(dims@.take(i as int + 1).drop_last() =~= dims@.take(i as int));
                }
                let size = dims.0[i] as usize;
                match count.checked_mul(size) {
                    Some(c) => {
                        count = c;
                    },
                    None => {
                        proof {
                            crate::dims::lemma_prefix_count_bounded(dims@, i as int + 1);
                            assert(dims@.take(i as int + 1).last() == dims@[i as int]);
                            assert(shape_count(dims@.take(i as int + 1)) == count * size);
                            lemma_block_too_small(block@, D as nat, elem as int, mem@.abi);
                            assert(mem@.contents(self.addr) == Some(block@));
                            assert(array_block::<D, T>(mem@, self.addr) is None);
                        }
                        return Err(LVInteropError::InternalError(InternalError::InvalidHandle));
                    },
                }
                i = i + 1;
            }
            proof {
                assert(dims@.take(D as int) =~= dims@);
            }
        }
        proof {
            assert(count == array_count(block@, D as nat));
        }
        match array_block_size_of(D, elem, count, mem.abi()) {
            Some(n) => if n <= block.len() {
                Ok(count)
            } else {
                Err(LVInteropError::InternalError(InternalError::InvalidHandle))
            },
            None => Err(LVInteropError::InternalError(InternalError::InvalidHandle)),
        }
    }

    /// Element `index`, in row-major order. The array must be well formed
    /// and hold more than `index` elements.
    pub fn get_value_unchecked<M: MemoryManager>(&self, mem: &M, index: usize) -> (r: T)
        requires
            array_block::<D, T>(mem@, self.addr) is Some,
            index < array_count(array_block::<D, T>(mem@, self.addr).unwrap(), D as nat),
        ensures
            r == T::spec_from_bytes(
                element_bytes(
                    mem@.contents(self.addr).unwrap(),
                    D as nat,
                    type_code_size(T::spec_type_code()),
                    mem@.abi,
                    index as int,
                ),
            ),
    {
        let block = mem.block(self.addr).unwrap();
        let code = T::type_code();
        let elem = element_size_of(code);
        proof {
            lemma_element_in_block(block@, D as nat, elem as int, mem@.abi, index as int);
        }
        let (start, end) = element_range(D, elem, mem.abi(), index, block.len());
        proof {
            assert((index + 1) * elem == index * elem + elem) by (nonlinear_arith);
        }
        let bytes = &block[start..end];
        proof {
            assert(bytes@ =~= element_bytes(block@, D as nat, elem as int, mem@.abi, index as int));
        }
        T::from_bytes(bytes)
    }

    /// The array that the handle reaches, read out of its block. Fails with
    /// `InvalidHandle` where the block is not a well-formed array.
    pub fn read_array<M: MemoryManager>(&self, mem: &M) -> (r: Result<LVArray<D, T>>)
        requires
            D <= i32::MAX,
        ensures
            match array_block::<D, T>(mem@, self.addr) {
                Some(b) => r matches Ok(a) && a.wf() && a.spec_dims() == header_dims(b, D as nat)
                    && a.spec_data() == array_elements::<T>(b, D as nat, mem@.abi),
                None => r == Err::<LVArray<D, T>, LVInteropError>(invalid_handle()),
            },
    {
        let count = match self.element_count(mem) {
            Ok(n) => n,
            Err(e) => {
                return Err(e);
            },
        };
        let dims = match self.dimension_sizes(mem) {
            Ok(d) => d,
            Err(e) => {
                return Err(e);
            },
        };
        let ghost block = mem@.contents(self.addr).unwrap();
        let mut data: Vec<T> = Vec::new();
        let mut i: usize = 0;
        while i < count
            invariant
                i <= count,
                array_block::<D, T>(mem@, self.addr) == Some(block),
                count == array_count(block, D as nat),
                data@ =~= array_elements::<T>(block, D as nat, mem@.abi).take(i as int),
            decreases count - i,
        {
            let v = self.get_value_unchecked(mem, i);
            data.push(v);
            i = i + 1;
        }
        proof {
            assert(array_elements::<T>(block, D as nat, mem@.abi).take(count as int)
                =~= array_elements::<T>(block, D as nat, mem@.abi));
        }
        Ok(LVArray { dims, data })
    }

    /// Whether the natural 64-bit layout is in force and the array's header
    /// already holds `dims`.
    fn header_equals<M: MemoryManager>(&self, mem: &M, dims: &LVArrayDims<D>) -> (r: bool)
        requires
            D <= i32::MAX,
        ensures
            r == header_matches(mem@, self.addr, D as nat, dims@),
    {
        match mem.abi() {
            Abi::Packed32 => {
                return false;
            },
            Abi::Natural64 => {},
        }
        let current = match self.dimension_sizes(mem) {
            Ok(d) => d,
            Err(_) => {
                return false;
            },
        };
        let ghost block = mem@.contents(self.addr).unwrap();
        let mut i: usize = 0;
        while i < D
            invariant
                i <= D,
                current@.len() == D,
                dims@.len() == D,
                mem@.abi == Abi::Natural64,
                mem@.contents(self.addr) == Some(block),
                4 * D <= block.len(),
                header_dims(block, D as nat) == current@,
                forall|k: int| 0 <= k < i ==> #[trigger] current@[k] == dims@[k],
            decreases D - i,
        {
            if current.0[i] != dims.0[i] {
                proof {
                    assert(current@[i as int] != dims@[i as int]);
                }
                return false;
            }
            i = i + 1;
        }
        proof {
            assert(current@ =~= dims@);
        }
        true
    }

    /// Resizes the array through the host to the dimension sizes `dims`
    /// and writes them into its header. Where the handle is null, the host
    /// allocates the array and the handle takes its address. In the natural
    /// 64-bit layout, an array whose header already holds `dims` is left as
    /// it is, without a call to the host.
    pub fn resize_array<M: MemoryManager>(&mut self, mem: &mut M, dims: LVArrayDims<D>) -> (r: Result<()>)
        requires
            D <= i32::MAX,
            shape_nonnegative(dims@),
            shape_count(dims@) <= usize::MAX,
        ensures
            header_matches(old(mem)@, old(self).addr, D as nat, dims@) ==> r is Ok && final(mem)@
                == old(mem)@ && *final(self) == *old(self),
            !header_matches(old(mem)@, old(self).addr, D as nat, dims@) && !old(mem)@.bound ==> no_api(r)
                && final(mem)@ == old(mem)@ && *final(self) == *old(self),
            !header_matches(old(mem)@, old(self).addr, D as nat, dims@) && old(mem)@.bound
                ==> array_resized(
                old(mem)@,
                final(mem)@,
                T::spec_type_code(),
                D as nat,
                old(self).addr,
                final(self).addr,
                dims@,
                r,
            ),
    {
        if self.header_equals(mem, &dims) {
            return Ok(());
        }
        if !mem.api_available() {
            return Err(no_api_error());
        }
        let count = dims.element_count();
        let code = T::type_code();
        let mut addr = self.addr;
        let status = mem.numeric_array_resize(code, D as i32, &mut addr, count);
        self.addr = addr;
        let ghost mid = mem@;
        if status.0 != 0 {
            let r = status.to_specific_result(());
            proof {
                assert(array_resize_outcome(old(mem)@, mid, T::spec_type_code(), (D as nat) as i32, old(self).addr, addr, shape_count(dims@) as usize, status));
                assert(array_resized(old(mem)@, mem@, T::spec_type_code(), D as nat, old(self).addr, addr, dims@, r));
            }
            return r;
        }
        let header = dims_header(&dims);
        proof {
            let elem = type_code_size(code);
            assert(array_data_offset(D as int, elem, mid.abi) >= 4 * D);
            assert(count * elem >= 0) by (nonlinear_arith)
                requires
                    elem >= 1,
            ;
        }
        let _ = self.write_bytes(mem, 0, header.as_slice());
        proof {
            assert(array_resize_outcome(old(mem)@, mid, T::spec_type_code(), (D as nat) as i32, old(self).addr, addr, shape_count(dims@) as usize, status));
            assert(array_resized(old(mem)@, mem@, T::spec_type_code(), D as nat, old(self).addr, addr, dims@, Ok(())));
        }
        Ok(())
    }

    /// Sets element `index`, in row-major order, to `value`. The array must
    /// be well formed and hold more than `index` elements.
    pub fn set_value_unchecked<M: MemoryManager>(&mut self, mem: &mut M, index: usize, value: T)
        requires
            array_block::<D, T>(old(mem)@, old(self).addr) is Some,
            index < array_count(array_block::<D, T>(old(mem)@, old(self).addr).unwrap(), D as nat),
        ensures
            *final(self) == *old(self),
            final(mem)@ == old(mem)@.with_contents(
                old(self).addr,
                overwrite(
                    old(mem)@.contents(old(self).addr).unwrap(),
                    array_data_offset(D as int, type_code_size(T::spec_type_code()), old(mem)@.abi)
                        + index * type_code_size(T::spec_type_code()),
                    value.spec_to_bytes(),
                ),
            ),
    {
        let code = T::type_code();
        let elem = element_size_of(code);
        let len = mem.block(self.addr).unwrap().len();
        proof {
            lemma_element_in_block(
                old(mem)@.contents(self.addr).unwrap(),
                D as nat,
                elem as int,
                mem@.abi,
                index as int,
            );
        }
        let (start, _) = element_range(D, elem, mem.abi(), index, len);
        proof {
            assert((index + 1) * elem == index * elem + elem) by (nonlinear_arith);
        }
        let bytes = value.to_bytes();
        let _ = self.write_bytes(mem, start, bytes.as_slice());
    }
}

/// What resizing the array at `h` to the dimension sizes `dims` leaves: the
/// host's array resize, then, where it succeeded, the sizes written into
/// the header.
pub open spec fn array_resized(
    before: HostMemoryView,
    after: HostMemoryView,
    type_code: i32,
    d: nat,
    h: usize,
    h_after: usize,
    dims: Seq<i32>,
    r: Result<()>,
) -> bool {
    exists|mid: HostMemoryView, status: LVStatusCode|
        #![trigger array_resize_outcome(before, mid, type_code, d as i32, h, h_after, shape_count(dims) as usize, status)]
        {
            &&& array_resize_outcome(
                before,
                mid,
                type_code,
                d as i32,
                h,
                h_after,
                shape_count(dims) as usize,
                status,
            )
            &&& status.0 == 0 ==> r is Ok && after == mid.with_contents(
                h_after,
                overwrite(mid.contents(h_after).unwrap(), 0, dims_bytes(dims)),
            )
            &&& status.0 != 0 ==> r == Err::<(), LVInteropError>(specific_error(status)) && after
                == mid
        }
}

/// The header bytes of dimension sizes take four bytes each.
proof fn lemma_dims_bytes_len(dims: Seq<i32>)
    ensures
        dims_bytes(dims).len() == 4 * dims.len(),
    decreases dims.len(),
{
    if dims.len() > 0 {
        lemma_dims_bytes_len(dims.drop_last());
        lemma_auto_spec_u32_to_from_le_bytes();
        assert(spec_u32_to_le_bytes(dims.last() as u32).len() == 4);
    }
}

/// The header bytes of dimension sizes.
fn dims_header<const D: usize>(dims: &LVArrayDims<D>) -> (r: Vec<u8>)
    ensures
        r@ == dims_bytes(dims@),
        r@.len() == 4 * D,
{
    let mut r: Vec<u8> = Vec::new();
    let mut i: usize = 0;
    while i < D
        invariant
            i <= D,
            dims@.len() == D,
            r@ == dims_bytes(dims@.take(i as int)),
        decreases D - i,
    {
        let bytes = u32_to_le_bytes(dims.0[i] as u32);
        let mut k: usize = 0;
        let ghost start = r@;
        while k < 4
            invariant
                k <= 4,
                bytes@.len() == 4,
                r@ == start + bytes@.take(k as int),
            decreases 4 - k,
        {
            r.push(bytes[k]);
            k = k + 1;
            proof {
                assert(r@ =~= start + bytes@.take(k as int));
            }
        }
        proof {
            assert(bytes@.take(4) =~= bytes@);
            assert(dims@.take(i as int + 1).drop_last() =~= dims@.take(i as int));
        }
        i = i + 1;
    }
    proof {
        assert(dims@.take(D as int) =~= dims@);
        lemma_dims_bytes_len(dims@);
    }
    r
}

/// Dimension sizes all zero.
pub open spec fn zero_dims(d: nat) -> Seq<i32> {
    Seq::new(d, |i: int| 0i32)
}

/// What the block of a new empty array holds: a well-formed array whose
/// sizes are all zero, or, where the natural layout keeps an array without
/// dimensions as it starts, the empty block.
pub open spec fn empty_array_block<const D: usize, T: NumericArrayResizable>(
    mem: HostMemoryView,
    addr: usize,
) -> bool {
    if D == 0 && mem.abi == Abi::Natural64 {
        mem.contents(addr) == Some(Seq::<u8>::empty())
    } else {
        array_block::<D, T>(mem, addr) matches Some(b) && header_dims(b, D as nat) == zero_dims(
            D as nat,
        )
    }
}

impl<const D: usize, T: NumericArrayResizable> OwnedUHandle<LVArray<D, T>> {
    /// A new owned array with every dimension of size zero. Where the
    /// resize fails, the block allocated for it is released again.
    pub fn new_empty<M: MemoryManager>(mem: &mut M) -> (r: Result<Self>)
        requires
            D <= i32::MAX,
        ensures
            !old(mem)@.bound ==> no_api(r) && final(mem)@ == old(mem)@,
            old(mem)@.bound ==> (r matches Ok(o) ==> old(mem)@.fresh(o.addr())
                && empty_array_block::<D, T>(final(mem)@, o.addr()) && (forall|a: usize|
                #![trigger final(mem)@.slot(a)]
                a != o.addr() ==> final(mem)@.slot(a) == old(mem)@.slot(a)) && final(mem)@.bound
                && final(mem)@.abi == old(mem)@.abi && final(mem)@.max_block == old(
                mem,
            )@.max_block && final(mem)@.disposals == old(mem)@.disposals),
            old(mem)@.bound ==> (r is Err ==> (creation_failed(r) && final(mem)@ == old(mem)@) || (
            host_failure(r) && exists|a: usize|
                #![trigger old(mem)@.fresh(a)]
                old(mem)@.fresh(a) && released(
                    old(mem)@.with_contents(a, Seq::empty()),
                    final(mem)@,
                    a,
                ))),
    {
        let mut handle = match OwnedUHandle::<LVArray<D, T>>::allocate_empty(mem) {
            Ok(h) => h,
            Err(e) => {
                return Err(e);
            },
        };
        let dims = LVArrayDims::<D>::new_empty();
        proof {
            lemma_all_zero_count(dims@);
            assert(dims@ =~= zero_dims(D as nat));
            T::lemma_type_code_known();
        }
        let ghost allocated = mem@;
        let ghost addr = handle.addr;
        let resized = handle.resize_array(mem, dims);
        proof {
            assert(forall|a: usize| #![trigger allocated.slot(a)] a != addr ==> allocated.slot(a) == old(mem)@.slot(a));
            if D == 0 && allocated.abi == Abi::Natural64 {
                assert(header_dims(Seq::<u8>::empty(), 0) =~= dims@);
                assert(header_matches(allocated, addr, D as nat, dims@));
            }
            if header_matches(allocated, addr, D as nat, dims@) {
                assert(D == 0);
            } else {
                lemma_resize_from_empty::<T>(allocated, mem@, D as nat, addr, handle.addr, dims@, resized);
            }
        }
        match resized {
            Ok(()) => {
                proof {
                    if !header_matches(allocated, addr, D as nat, dims@) {
                        lemma_resized_array::<T>(allocated, mem@, D as nat, addr, handle.addr, dims@);
                    }
                    assert(forall|a: usize| a != addr ==> mem@.slot(a) == allocated.slot(a));
                    assert(handle.addr == addr);
                    assert(mem@.bound && mem@.abi == old(mem)@.abi);
                    assert(mem@.max_block == old(mem)@.max_block);
                    assert(mem@.disposals == old(mem)@.disposals);
                    assert(empty_array_block::<D, T>(mem@, addr));
                }
                Ok(OwnedUHandle::from_allocated(handle))
            },
            Err(e) => {
                let ghost failed = mem@;
                let _ = mem.dispose_handle(handle.addr);
                proof {
                    assert(released(failed, mem@, addr));
                    assert(failed == allocated);
                    assert(old(mem)@.fresh(addr));
                }
                Err(e)
            },
        }
    }
}

/// A resize of a block whose header does not already match keeps a
/// non-null handle; on failure it leaves the memory as it was and reports
/// the host's error, and on success it changes only that block.
proof fn lemma_resize_from_empty<T: NumericArrayResizable>(
    before: HostMemoryView,
    after: HostMemoryView,
    d: nat,
    h: usize,
    h_after: usize,
    dims: Seq<i32>,
    r: Result<()>,
)
    requires
        h != 0,
        array_resized(before, after, T::spec_type_code(), d, h, h_after, dims, r),
    ensures
        h_after == h,
        after.bound == before.bound && after.abi == before.abi && after.max_block
            == before.max_block && after.disposals == before.disposals,
        forall|a: usize| #![trigger after.slot(a)] a != h ==> after.slot(a) == before.slot(a),
        r is Err ==> after == before && host_failure(r),
{
    let type_code = T::spec_type_code();
    let count = shape_count(dims) as usize;
    let (mid, status) = choose|mid: HostMemoryView, status: LVStatusCode|
        #![trigger array_resize_outcome(before, mid, type_code, d as i32, h, h_after, shape_count(dims) as usize, status)]
        {
            &&& array_resize_outcome(before, mid, type_code, d as i32, h, h_after, count, status)
            &&& status.0 == 0 ==> r is Ok && after == mid.with_contents(
                h_after,
                overwrite(mid.contents(h_after).unwrap(), 0, dims_bytes(dims)),
            )
            &&& status.0 != 0 ==> r == Err::<(), LVInteropError>(specific_error(status)) && after
                == mid
        };
    if status.0 != 0 {
        assert(host_failure(r)) by {
            assert(status.0 != 0 && r == Err::<(), LVInteropError>(specific_error(status)));
        }
    }
}

/// Dimension sizes all zero hold no element (one for no dimension).
proof fn lemma_all_zero_count(dims: Seq<i32>)
    requires
        forall|i: int| 0 <= i < dims.len() ==> dims[i] == 0,
    ensures
        shape_nonnegative(dims),
        shape_count(dims) <= 1,
    decreases dims.len(),
{
    if dims.len() > 0 {
        lemma_all_zero_count(dims.drop_last());
        let c = shape_count(dims.drop_last());
        assert(c * 0 == 0) by (nonlinear_arith);
    }
}

impl<T: NumericArrayResizable> LVCopy for T {
    open spec fn host_bytes(&self) -> Seq<u8> {
        self.spec_to_bytes()
    }

    fn to_host_bytes(&self) -> (r: Vec<u8>) {
        self.to_bytes()
    }
}

impl<T: NumericArrayResizable> UHandle<T> {
    /// The value that the block holds. Fails with `InvalidHandle` where the
    /// handle reaches no block or one of another size.
    pub fn read_value<M: MemoryManager>(&self, mem: &M) -> (r: Result<T>)
        ensures
            match mem@.contents(self.addr) {
                Some(b) => if b.len() == type_code_size(T::spec_type_code()) {
                    r == Ok::<T, LVInteropError>(T::spec_from_bytes(b))
                } else {
                    r == Err::<T, LVInteropError>(invalid_handle())
                },
                None => r == Err::<T, LVInteropError>(invalid_handle()),
            },
    {
        let block = match self.as_ref(mem) {
            Ok(b) => b,
            Err(e) => {
                return Err(e);
            },
        };
        let code = T::type_code();
        if block.len() != element_size_of(code) {
            return Err(LVInteropError::InternalError(InternalError::InvalidHandle));
        }
        Ok(T::from_bytes(block))
    }

    /// Stores `value` as the block's bytes. Fails with `InvalidHandle`
    /// where the handle reaches no block or one of another size.
    pub fn write_value<M: MemoryManager>(&self, mem: &mut M, value: T) -> (r: Result<()>)
        ensures
            match old(mem)@.contents(self.addr) {
                Some(b) => if b.len() == type_code_size(T::spec_type_code()) {
                    r is Ok && final(mem)@ == old(mem)@.with_contents(self.addr, value.spec_to_bytes())
                } else {
                    r == Err::<(), LVInteropError>(invalid_handle()) && final(mem)@ == old(mem)@
                },
                None => r == Err::<(), LVInteropError>(invalid_handle()) && final(mem)@ == old(mem)@,
            },
    {
        let len = match self.as_ref(mem) {
            Ok(b) => b.len(),
            Err(e) => {
                return Err(e);
            },
        };
        let code = T::type_code();
        if len != element_size_of(code) {
            return Err(LVInteropError::InternalError(InternalError::InvalidHandle));
        }
        let bytes = value.to_bytes();
        let r = self.write_bytes(mem, 0, bytes.as_slice());
        proof {
            let b = old(mem)@.contents(self.addr).unwrap();
            assert(overwrite(b, 0, bytes@) =~= value.spec_to_bytes());
        }
        r
    }
}

impl UHandle<i32> {
    /// The handle as text: `UHandle(` and the value, or `UHandle(Invalid)`
    /// where it reaches no value.
    pub fn debug_text<M: MemoryManager>(&self, mem: &M) -> (r: String)
        ensures
            r@ == value_text("UHandle"@, mem@, self.addr),
    {
        handle_text("UHandle", self, mem)
    }
}

impl OwnedUHandle<i32> {
    /// The owned handle as text: `LvOwned(` and the value, or
    /// `LvOwned(Invalid)` where it reaches no value.
    pub fn debug_text<M: MemoryManager>(&self, mem: &M) -> (r: String)
        ensures
            r@ == value_text("LvOwned"@, mem@, self.addr()),
    {
        handle_text("LvOwned", self.handle(), mem)
    }
}

/// A labelled handle as text: the label, then the value in parentheses, or
/// `Invalid` there where the handle reaches no value.
pub open spec fn value_text(label: Seq<char>, mem: HostMemoryView, addr: usize) -> Seq<char> {
    match mem.contents(addr) {
        Some(b) => if b.len() == 4 {
            label + "("@ + crate::status::decimal(i32::spec_from_bytes(b) as int) + ")"@
        } else {
            label + "(Invalid)"@
        },
        None => label + "(Invalid)"@,
    }
}

fn handle_text<M: MemoryManager>(label: &str, handle: &UHandle<i32>, mem: &M) -> (r: String)
    ensures
        r@ == value_text(label@, mem@, handle.addr),
{
    let text = String::from_str(label);
    match handle.read_value(mem) {
        Ok(v) => {
            let text = text.concat("(");
            let number = crate::status::decimal_text(v);
            let text = text.concat(number.as_str());
            text.concat(")")
        },
        Err(_) => text.concat("(Invalid)"),
    }
}

/// A block cannot hold more elements than it has bytes.
proof fn lemma_block_too_small(block: Seq<u8>, d: nat, elem: int, abi: Abi)
    requires
        1 <= elem <= 8,
        block.len() <= usize::MAX,
        array_count(block, d) > usize::MAX,
    ensures
        !array_well_formed(block, d, elem, abi),
{
    let n = array_count(block, d);
    assert(n * elem >= n) by (nonlinear_arith)
        requires
            elem >= 1,
            n >= 0,
    ;
}

} // verus!

verus! {

/// Each four bytes of a dimension header hold one size.
proof fn lemma_dims_bytes_slot(dims: Seq<i32>, i: int)
    requires
        0 <= i < dims.len(),
    ensures
        dims_bytes(dims).subrange(4 * i, 4 * i + 4) == spec_u32_to_le_bytes(dims[i] as u32),
    decreases dims.len(),
{
    lemma_auto_spec_u32_to_from_le_bytes();
    let init = dims.drop_last();
    lemma_dims_bytes_len(init);
    lemma_dims_bytes_len(dims);
    let last = spec_u32_to_le_bytes(dims.last() as u32);
    assert(last.len() == 4);
    if i == dims.len() - 1 {
        assert(dims_bytes(dims).subrange(4 * i, 4 * i + 4) =~= last);
    } else {
        lemma_dims_bytes_slot(init, i);
        assert(dims_bytes(dims).subrange(4 * i, 4 * i + 4) =~= dims_bytes(init).subrange(
            4 * i,
            4 * i + 4,
        ));
    }
}

/// A block that starts with the header of `dims` holds those sizes.
pub proof fn lemma_header_of_dims(dims: Seq<i32>, block: Seq<u8>)
    requires
        block.len() >= 4 * dims.len(),
        block.take(4 * dims.len() as int) == dims_bytes(dims),
    ensures
        header_dims(block, dims.len()) == dims,
{
    lemma_auto_spec_u32_to_from_le_bytes();
    lemma_dims_bytes_len(dims);
    assert forall|i: int| 0 <= i < dims.len() implies #[trigger] header_dims(block, dims.len())[i]
        == dims[i] by {
        lemma_dims_bytes_slot(dims, i);
        assert(block.subrange(4 * i, 4 * i + 4) =~= dims_bytes(dims).subrange(4 * i, 4 * i + 4));
        let x = dims[i];
        assert(x as u32 as i32 == x) by (bit_vector);
    }
    assert(header_dims(block, dims.len()) =~= dims);
}

/// After a successful resize to `dims`, the handle reaches a well-formed
/// array with exactly those dimension sizes.
pub proof fn lemma_resized_array<T: NumericArrayResizable>(
    before: HostMemoryView,
    after: HostMemoryView,
    d: nat,
    h: usize,
    h_after: usize,
    dims: Seq<i32>,
)
    requires
        dims.len() == d,
        d <= i32::MAX,
        shape_nonnegative(dims),
        shape_count(dims) <= usize::MAX,
        array_resized(before, after, T::spec_type_code(), d, h, h_after, dims, Ok(())),
    ensures
        after.abi == before.abi,
        after.contents(h_after) matches Some(b) && array_well_formed(
            b,
            d,
            type_code_size(T::spec_type_code()),
            after.abi,
        ) && header_dims(b, d) == dims,
{
    let type_code = T::spec_type_code();
    let elem = type_code_size(type_code);
    let count = shape_count(dims) as usize;
    let (mid, status) = choose|mid: HostMemoryView, status: LVStatusCode|
        #![trigger array_resize_outcome(before, mid, type_code, d as i32, h, h_after, shape_count(dims) as usize, status)]
        {
            &&& array_resize_outcome(before, mid, type_code, d as i32, h, h_after, count, status)
            &&& status.0 == 0 ==> Ok::<(), LVInteropError>(()) is Ok && after == mid.with_contents(
                h_after,
                overwrite(mid.contents(h_after).unwrap(), 0, dims_bytes(dims)),
            )
            &&& status.0 != 0 ==> Ok::<(), LVInteropError>(()) == Err::<(), LVInteropError>(
                specific_error(status),
            ) && after == mid
        };
    assert(status.0 == 0);
    let size = array_block_size(d as int, elem, count as int, before.abi);
    let sized = mid.contents(h_after).unwrap();
    assert(sized.len() == size);
    lemma_dims_bytes_len(dims);
    assert(array_data_offset(d as int, elem, before.abi) >= 4 * d);
    assert(count * elem >= 0) by (nonlinear_arith)
        requires
            elem >= 1,
    ;
    let b = overwrite(sized, 0, dims_bytes(dims));
    assert(b.len() == sized.len());
    assert(b.take(4 * d as int) =~= dims_bytes(dims));
    lemma_header_of_dims(dims, b);
    assert(after.contents(h_after) == Some(b));
}

/// Setting element `index` and reading it back gives the value set, and
/// leaves the array well formed with the same sizes.
pub proof fn lemma_set_then_get<T: NumericArrayResizable>(
    block: Seq<u8>,
    d: nat,
    abi: Abi,
    index: int,
    value: T,
)
    requires
        array_well_formed(block, d, type_code_size(T::spec_type_code()), abi),
        0 <= index < array_count(block, d),
    ensures
        ({
            let elem = type_code_size(T::spec_type_code());
            let written = overwrite(
                block,
                array_data_offset(d as int, elem, abi) + index * elem,
                value.spec_to_bytes(),
            );
            &&& array_well_formed(written, d, elem, abi)
            &&& header_dims(written, d) == header_dims(block, d)
            &&& T::spec_from_bytes(element_bytes(written, d, elem, abi, index)) == value
        }),
{
    let elem = type_code_size(T::spec_type_code());
    T::lemma_type_code_known();
    T::lemma_bytes_round_trip(value);
    lemma_element_in_block(block, d, elem, abi, index);
    let start = array_data_offset(d as int, elem, abi) + index * elem;
    assert(index * elem >= 0) by (nonlinear_arith)
        requires
            index >= 0,
            elem >= 1,
    ;
    assert((index + 1) * elem == index * elem + elem) by (nonlinear_arith);
    let written = overwrite(block, start, value.spec_to_bytes());
    assert(written.len() == block.len());
    assert forall|i: int| 0 <= i < d implies #[trigger] header_dims(written, d)[i] == header_dims(
        block,
        d,
    )[i] by {
        assert(written.subrange(4 * i, 4 * i + 4) =~= block.subrange(4 * i, 4 * i + 4));
    }
    assert(header_dims(written, d) =~= header_dims(block, d));
    assert(element_bytes(written, d, elem, abi, index) =~= value.spec_to_bytes());
}

} // verus!
