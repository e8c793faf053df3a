//! The host's memory manager as this library sees it.
//!
//! The host keeps a table of master pointers; a handle is the address of one
//! of them, and the master pointer holds the address of the block itself, so
//! that the host can move a block when it resizes it. Here the table is a
//! vector of master pointers, a handle's address is one more than the index
//! of its master pointer, and address zero is null.
use vstd::prelude::*;

use crate::errors::{InternalError, LVInteropError, Result};
use crate::mg_error::MgError;
use crate::status::LVStatusCode;

verus! {

/// The host's status code for an invalid argument, such as an unknown handle.
pub const ARGUMENT_ERROR: i32 = 1;

/// The host's status code for a request that exceeds the memory it has.
pub const MEMORY_FULL_ERROR: i32 = 2;

/// Which of the host's two struct layouts is in force: packed without
/// padding on 32-bit targets, naturally aligned on 64-bit targets.
#[derive(Debug, Clone, Copy, PartialEq, Eq, Structural)]
pub enum Abi {
    Packed32,
    Natural64,
}

/// What one master pointer of the host holds.
#[derive(Debug, Clone, PartialEq, Eq)]
pub enum MasterPointer {
    /// Released: the host no longer knows this handle.
    Disposed,
    /// A master pointer that holds a null block address.
    Null,
    /// A live block and its bytes.
    Block(Vec<u8>),
}

/// A master pointer as a mathematical value.
pub enum SlotState {
    Disposed,
    Null,
    Block(Seq<u8>),
}

/// The value of one master pointer.
pub open spec fn slot_state(m: MasterPointer) -> SlotState {
    match m {
        MasterPointer::Disposed => SlotState::Disposed,
        MasterPointer::Null => SlotState::Null,
        MasterPointer::Block(b) => SlotState::Block(b@),
    }
}

/// The host's memory as a mathematical value.
pub struct HostMemoryView {
    /// The master pointers, by handle address.
    pub slots: Map<usize, SlotState>,
    /// Whether the host's memory-manager entry points are available.
    pub bound: bool,
    /// The struct layout in force.
    pub abi: Abi,
    /// The largest block the host hands out.
    pub max_block: nat,
    /// How many release requests the host has received.
    pub disposals: nat,
}

impl HostMemoryView {
    /// The master pointer at a handle address; null and any address the
    /// host does not hold count as released.
    pub open spec fn slot(self, addr: usize) -> SlotState {
        if addr != 0 && self.slots.contains_key(addr) {
            self.slots[addr]
        } else {
            SlotState::Disposed
        }
    }

    /// The bytes of the block that a handle address reaches, if any.
    pub open spec fn contents(self, addr: usize) -> Option<Seq<u8>> {
        match self.slot(addr) {
            SlotState::Block(b) => Some(b),
            _ => None,
        }
    }

    /// The memory with the block at `addr` holding `bytes`.
    pub open spec fn with_contents(self, addr: usize, bytes: Seq<u8>) -> HostMemoryView {
        HostMemoryView { slots: self.slots.insert(addr, SlotState::Block(bytes)), ..self }
    }

    /// True of an address that a new handle may take: not null, and reaching
    /// no live block.
    pub open spec fn fresh(self, addr: usize) -> bool {
        addr != 0 && self.contents(addr) is None
    }
}

/// `bytes` cut or padded with zeros to `size` bytes.
pub open spec fn resized(bytes: Seq<u8>, size: nat) -> Seq<u8> {
    if size <= bytes.len() {
        bytes.take(size as int)
    } else {
        bytes + Seq::new((size - bytes.len()) as nat, |i: int| 0u8)
    }
}

/// A memory manager kept inside this library: a table of master pointers
/// and blocks that answers the `MemoryManager` entry points as the host
/// documents them, with status codes.
///
/// It stands in for the host where none is running: in tests, and in
/// programs that exercise the handle types without the host. It counts the
/// release requests it receives, and `bound` says whether it acts as if the
/// host's entry points had been found.
pub struct HostMemory {
    slots: Vec<MasterPointer>,
    bound: bool,
    abi: Abi,
    max_block: usize,
    disposals: usize,
}

/// A block of `size` zero bytes.
fn zeros(size: usize) -> (r: Vec<u8>)
    ensures
        r@ == Seq::new(size as nat, |i: int| 0u8),
{
    let mut r: Vec<u8> = Vec::new();
    let mut i: usize = 0;
    while i < size
        invariant
            i <= size,
            r@ =~= Seq::new(i as nat, |k: int| 0u8),
        decreases size - i,
    {
        r.push(0u8);
        i = i + 1;
    }
    r
}

/// A copy of `bytes`.
fn copy_of(bytes: &[u8]) -> (r: Vec<u8>)
    ensures
        r@ == bytes@,
{
    let mut r: Vec<u8> = Vec::new();
    let mut i: usize = 0;
    while i < bytes.len()
        invariant
            i <= bytes@.len(),
            r@ =~= bytes@.take(i as int),
        decreases bytes@.len() - i,
    {
        r.push(bytes[i]);
        i = i + 1;
    }
    proof {
        assert(bytes@.take(bytes@.len() as int) =~= bytes@);
    }
    r
}

/// `bytes` cut or padded with zeros to `size` bytes.
fn resize_bytes(bytes: &[u8], size: usize) -> (r: Vec<u8>)
    ensures
        r@ == resized(bytes@, size as nat),
{
    let mut r: Vec<u8> = Vec::new();
    let mut i: usize = 0;
    while i < size
        invariant
            i <= size,
            r@.len() == i,
            forall|k: int| 0 <= k < i ==> r@[k] == (if k < bytes@.len() { bytes@[k] } else { 0u8 }),
        decreases size - i,
    {
        if i < bytes.len() {
            r.push(bytes[i]);
        } else {
            r.push(0u8);
        }
        i = i + 1;
    }
    proof {
        assert(r@ =~= resized(bytes@, size as nat));
    }
    r
}

impl HostMemory {
    /// The number of master pointers the table holds; the next one gets the
    /// address one past it.
    pub closed spec fn table_len(&self) -> nat {
        self.slots@.len()
    }

    /// An empty memory: no master pointer yet, blocks of at most `max_block`
    /// bytes, and the entry points available where `bound` holds.
    pub fn new(abi: Abi, bound: bool, max_block: usize) -> (r: HostMemory)
        ensures
            r@.slots == Map::<usize, SlotState>::empty(),
            r.table_len() == 0,
            r@.bound == bound,
            r@.abi == abi,
            r@.max_block == max_block,
            r@.disposals == 0,
    {
        let r = HostMemory { slots: Vec::new(), bound, abi, max_block, disposals: 0 };
        proof {
            assert(r@.slots =~= Map::<usize, SlotState>::empty());
        }
        r
    }

    /// The memory manager, where its entry points are available; the error
    /// for a missing memory manager otherwise.
    pub fn memory_api(&self) -> (r: Result<&HostMemory>)
        ensures
            self@.bound ==> r == Ok::<&HostMemory, LVInteropError>(self),
            !self@.bound ==> no_api(r),
    {
        if self.bound {
            Ok(self)
        } else {
            Err(no_api_error())
        }
    }

    /// How many release requests the host has received.
    pub fn disposals(&self) -> (r: usize)
        ensures
            r == self@.disposals,
    {
        self.disposals
    }

    /// Stores `bytes` as the block that `addr` reaches.
    pub(crate) fn store(&mut self, addr: usize, bytes: Vec<u8>)
        requires
            old(self)@.contents(addr) is Some,
        ensures
            final(self)@ == old(self)@.with_contents(addr, bytes@),
            final(self).table_len() == old(self).table_len(),
    {
        self.slots.set(addr - 1, MasterPointer::Block(bytes));
        proof {
            assert(self@.slots =~= old(self)@.slots.insert(addr, SlotState::Block(bytes@)));
        }
    }

    /// Adds a master pointer that holds `bytes` and returns its address,
    /// the one past the table's last.
    fn append(&mut self, bytes: Vec<u8>) -> (addr: usize)
        requires
            old(self).table_len() < usize::MAX,
        ensures
            addr == old(self).table_len() + 1,
            old(self)@.fresh(addr),
            final(self)@ == old(self)@.with_contents(addr, bytes@),
            final(self).table_len() == old(self).table_len() + 1,
    {
        self.slots.push(MasterPointer::Block(bytes));
        proof {
            assert(self@.slots =~= old(self)@.slots.insert(
                self.slots@.len() as usize,
                SlotState::Block(bytes@),
            ));
        }
        self.slots.len()
    }

    /// Allocates a block of `size` zero bytes at the address one past the
    /// table's last, where the table has room and `size` is at most the
    /// largest block; returns null (zero) otherwise.
    pub fn allocate(&mut self, size: usize) -> (addr: usize)
        ensures
            old(self).table_len() < usize::MAX && size <= old(self)@.max_block ==> addr == old(
                self,
            ).table_len() + 1 && old(self)@.fresh(addr) && final(self)@ == old(self)@.with_contents(
                addr,
                Seq::new(size as nat, |i: int| 0u8),
            ),
            !(old(self).table_len() < usize::MAX && size <= old(self)@.max_block) ==> addr == 0
                && final(self)@ == old(self)@,
    {
        if self.slots.len() == usize::MAX || size > self.max_block {
            return 0;
        }
        let block = zeros(size);
        self.append(block)
    }

    /// Adds a master pointer that holds a null block address, as a handle
    /// whose inner pointer is null, and returns its address.
    pub fn new_null_master_pointer(&mut self) -> (addr: usize)
        ensures
            old(self).table_len() < usize::MAX ==> addr == old(self).table_len() + 1
                && final(self)@ == (HostMemoryView {
                slots: old(self)@.slots.insert(addr, SlotState::Null),
                ..old(self)@
            }),
            old(self).table_len() >= usize::MAX ==> addr == 0 && final(self)@ == old(self)@,
    {
        if self.slots.len() == usize::MAX {
            return 0;
        }
        self.slots.push(MasterPointer::Null);
        proof {
            assert(self@.slots =~= old(self)@.slots.insert(
                self.slots@.len() as usize,
                SlotState::Null,
            ));
        }
        self.slots.len()
    }
}

/// The size in bytes of the elements of a numeric type code of the host, or
/// zero for a code it does not know.
pub open spec fn type_code_size(type_code: i32) -> int {
    if type_code == 1 || type_code == 5 {
        1
    } else if type_code == 2 || type_code == 6 {
        2
    } else if type_code == 3 || type_code == 7 || type_code == 9 {
        4
    } else if type_code == 4 || type_code == 8 || type_code == 10 {
        8
    } else {
        0
    }
}

/// The offset of the first element of an array with `n_dims` dimensions
/// and elements of `elem` bytes: right after the dimension sizes when
/// packed, else rounded up to a multiple of the element size.
pub open spec fn array_data_offset(n_dims: int, elem: int, abi: Abi) -> int {
    let header = 4 * n_dims;
    match abi {
        Abi::Packed32 => header,
        Abi::Natural64 => if elem <= 1 || header % elem == 0 {
            header
        } else {
            header + (elem - header % elem)
        },
    }
}

/// The size of the block of an array with `n_dims` dimensions and `count`
/// elements of `elem` bytes.
pub open spec fn array_block_size(n_dims: int, elem: int, count: int, abi: Abi) -> int {
    array_data_offset(n_dims, elem, abi) + count * elem
}

/// The size in bytes of the elements of a numeric type code, or zero.
pub fn element_size_of(type_code: i32) -> (r: usize)
    ensures
        r == type_code_size(type_code),
{
    if type_code == 1 || type_code == 5 {
        1
    } else if type_code == 2 || type_code == 6 {
        2
    } else if type_code == 3 || type_code == 7 || type_code == 9 {
        4
    } else if type_code == 4 || type_code == 8 || type_code == 10 {
        8
    } else {
        0
    }
}

/// The size of the block of an array, or `None` where it exceeds `usize`.
pub fn array_block_size_of(n_dims: usize, elem: usize, count: usize, abi: Abi) -> (r: Option<
    usize,
>)
    requires
        1 <= elem <= 8,
    ensures
        r matches Some(n) ==> n == array_block_size(n_dims as int, elem as int, count as int, abi),
        r is None ==> array_block_size(n_dims as int, elem as int, count as int, abi)
            > usize::MAX,
{
    let header = match n_dims.checked_mul(4) {
        Some(h) => h,
        None => {
            proof {
                assert(array_data_offset(n_dims as int, elem as int, abi) >= 4 * n_dims) by (
                nonlinear_arith)
                    requires
                        1 <= elem <= 8,
                        array_data_offset(n_dims as int, elem as int, abi) >= 4 * n_dims,
                ;
                assert(count * elem >= 0) by (nonlinear_arith)
                    requires
                        elem >= 1,
                ;
            }
            return None;
        },
    };
    let offset = match abi {
        Abi::Packed32 => header,
        Abi::Natural64 => if elem <= 1 || header % elem == 0 {
            header
        } else {
            match header.checked_add(elem - header % elem) {
                Some(o) => o,
                None => {
                    proof {
                        assert(count * elem >= 0) by (nonlinear_arith)
                            requires
                                elem >= 1,
                        ;
                    }
                    return None;
                },
            }
        },
    };
    let data = match count.checked_mul(elem) {
        Some(d) => d,
        None => {
            return None;
        },
    };
    offset.checked_add(data)
}

/// What the host's array resize entry point may leave: on failure the
/// memory and the handle as they were; on success, for a null handle, a new
/// block of zeros at an address that held no live block, and otherwise the
/// handle's block cut or padded with zeros, in either case of the size for
/// `n_dims` dimensions and `count` elements of the numeric type `type_code`.
pub open spec fn array_resize_outcome(
    before: HostMemoryView,
    after: HostMemoryView,
    type_code: i32,
    n_dims: i32,
    h: usize,
    h_after: usize,
    count: usize,
    r: LVStatusCode,
) -> bool {
    let elem = type_code_size(type_code);
    let size = array_block_size(n_dims as int, elem, count as int, before.abi);
    if r.0 != 0 {
        after == before && h_after == h
    } else {
        &&& elem != 0
        &&& n_dims >= 0
        &&& size <= usize::MAX
        &&& if h == 0 {
            before.fresh(h_after) && after == before.with_contents(
                h_after,
                Seq::new(size as nat, |i: int| 0u8),
            )
        } else {
            h_after == h && (before.contents(h) matches Some(b) && after == before.with_contents(
                h,
                resized(b, size as nat),
            ))
        }
    }
}


/// True of the error for a missing memory manager.
pub open spec fn no_api<A>(r: Result<A>) -> bool {
    r matches Err(LVInteropError::InternalError(InternalError::NoLabviewApi(_)))
}


/// `b` with `bytes` written over it from `offset` on.
pub open spec fn overwrite(b: Seq<u8>, offset: int, bytes: Seq<u8>) -> Seq<u8> {
    b.take(offset) + bytes + b.skip(offset + bytes.len())
}

/// `b` with `bytes` written over it from `offset` on.
fn overwritten(b: &[u8], offset: usize, bytes: &[u8]) -> (r: Vec<u8>)
    requires
        offset + bytes@.len() <= b@.len(),
    ensures
        r@ == overwrite(b@, offset as int, bytes@),
{
    let mut r: Vec<u8> = Vec::new();
    let mut i: usize = 0;
    while i < b.len()
        invariant
            i <= b@.len(),
            offset + bytes@.len() <= b@.len(),
            r@.len() == i,
            forall|k: int|
                0 <= k < i ==> #[trigger] r@[k] == (if offset <= k < offset + bytes@.len() {
                    bytes@[k - offset]
                } else {
                    b@[k]
                }),
        decreases b@.len() - i,
    {
        if offset <= i && i < offset + bytes.len() {
            r.push(bytes[i - offset]);
        } else {
            r.push(b[i]);
        }
        i = i + 1;
    }
    proof {
        assert(r@ =~= overwrite(b@, offset as int, bytes@));
    }
    r
}

/// The host's memory-manager entry points, as this library calls them.
///
/// The contracts say only what holds of every outcome the host may give:
/// where a new block goes and whether a request succeeds are the host's to
/// decide. `HostMemory` implements them over a table kept in this library,
/// for running without a host. An implementation over a running host sees
/// the host's memory through the same view, which it cannot write out as a
/// value and so leaves at the default; its contracts are then believed of
/// the host's documented behaviour rather than checked.
pub trait MemoryManager {
    /// The memory as a mathematical value.
    open spec fn view(&self) -> HostMemoryView {
        arbitrary()
    }

    /// The host's text for a status code, where it has one.
    open spec fn host_error_text(&self, code: i32) -> Option<Seq<char>> {
        arbitrary()
    }

    /// Whether the host's memory-manager entry points are available.
    fn api_available(&self) -> (r: bool)
        ensures
            r == self@.bound,
    ;

    /// The struct layout in force.
    fn abi(&self) -> (r: Abi)
        ensures
            r == self@.abi,
    ;

    /// The largest block the host hands out.
    fn max_block(&self) -> (r: usize)
        ensures
            r == self@.max_block,
    ;

    /// Writes `bytes` into the block that `addr` reaches, from `offset` on.
    fn write(&mut self, addr: usize, offset: usize, bytes: &[u8])
        requires
            old(self)@.contents(addr) matches Some(b) && offset + bytes@.len() <= b.len(),
        ensures
            final(self)@ == old(self)@.with_contents(
                addr,
                overwrite(old(self)@.contents(addr).unwrap(), offset as int, bytes@),
            ),
    ;

    /// The bytes of the block that `addr` reaches, or `None` where it reaches
    /// none.
    fn block(&self, addr: usize) -> (r: Option<&[u8]>)
        ensures
            r matches Some(b) ==> self@.contents(addr) == Some(b@),
            r is None ==> self@.contents(addr) is None,
    ;

    /// The host's allocation entry point: a new handle to a block of `size`
    /// zero bytes, or null (zero), with the memory unchanged, where the host
    /// does not provide one.
    fn new_handle(&mut self, size: usize) -> (addr: usize)
        ensures
            addr == 0 ==> final(self)@ == old(self)@,
            addr != 0 ==> old(self)@.fresh(addr) && final(self)@ == old(self)@.with_contents(
                addr,
                Seq::new(size as nat, |i: int| 0u8),
            ),
    ;

    /// The host's check entry point: success exactly where `addr` reaches a
    /// live block.
    fn check_handle(&self, addr: usize) -> (r: LVStatusCode)
        ensures
            (r.0 == 0) == (self@.contents(addr) is Some),
    ;

    /// The host's resize entry point: on success the block that `addr`
    /// reaches, cut or padded with zeros to `size` bytes; on failure the
    /// memory as it was. An address without a block fails.
    fn set_handle_size(&mut self, addr: usize, size: usize) -> (r: LVStatusCode)
        ensures
            r.0 == 0 ==> (old(self)@.contents(addr) matches Some(b) && final(self)@ == old(
                self,
            )@.with_contents(addr, resized(b, size as nat))),
            r.0 != 0 ==> final(self)@ == old(self)@,
            old(self)@.contents(addr) is None ==> r.0 != 0,
    ;

    /// The host's copy entry point: copies the bytes of the block that `src`
    /// reaches into the block that `*dst` reaches, which takes the source's
    /// size; where `*dst` is null, a new handle is allocated for the copy and
    /// stored in `*dst`. On failure the memory and `*dst` are as they were;
    /// a source without a block fails.
    fn copy_handle(&mut self, dst: &mut usize, src: usize) -> (r: LVStatusCode)
        ensures
            copy_entry_outcome(old(self)@, final(self)@, src, *old(dst), *final(dst), r),
    ;

    /// The host's release entry point: counts the request, and on success
    /// releases the master pointer that `addr` reaches. On failure the
    /// master pointers are as they were; one that is not held fails.
    fn dispose_handle(&mut self, addr: usize) -> (r: LVStatusCode)
        ensures
            released(old(self)@, final(self)@, addr),
            r.0 == 0 ==> !(old(self)@.slot(addr) is Disposed) && final(self)@.slots == old(
                self,
            )@.slots.insert(addr, SlotState::Disposed),
            r.0 != 0 ==> final(self)@.slots == old(self)@.slots,
            old(self)@.slot(addr) is Disposed ==> r.0 != 0,
    ;

    /// The host's array resize entry point; see `array_resize_outcome`. The
    /// dimension sizes are left for the caller to write.
    fn numeric_array_resize(
        &mut self,
        type_code: i32,
        n_dims: i32,
        h: &mut usize,
        count: usize,
    ) -> (r: LVStatusCode)
        ensures
            array_resize_outcome(old(self)@, final(self)@, type_code, n_dims, *old(h), *final(h), count, r),
    ;

    /// The host's error-description entry point: its text for `code`, or
    /// `None` where it has none.
    fn error_code_description(&self, code: i32) -> (r: Option<String>)
        ensures
            r matches Some(t) ==> self.host_error_text(code) == Some(t@),
            r is None ==> self.host_error_text(code) is None,
    ;
}

/// What the host's copy entry point may leave.
pub open spec fn copy_entry_outcome(
    before: HostMemoryView,
    after: HostMemoryView,
    src: usize,
    dst: usize,
    dst_after: usize,
    r: LVStatusCode,
) -> bool {
    &&& r.0 != 0 ==> after == before && dst_after == dst
    &&& r.0 == 0 ==> (before.contents(src) matches Some(b) && if dst == 0 {
        before.fresh(dst_after) && after == before.with_contents(dst_after, b)
    } else {
        dst_after == dst && before.contents(dst) is Some && after == before.with_contents(dst, b)
    })
    &&& before.contents(src) is None ==> r.0 != 0
}

/// True where `after` is `before` with a release request for `addr`
/// answered: counted, and the master pointer released or left as it was.
pub open spec fn released(before: HostMemoryView, after: HostMemoryView, addr: usize) -> bool {
    &&& after.disposals == (if before.disposals < usize::MAX {
        before.disposals + 1
    } else {
        before.disposals
    })
    &&& after.bound == before.bound
    &&& after.abi == before.abi
    &&& after.max_block == before.max_block
    &&& after.slots == before.slots || (!(before.slot(addr) is Disposed) && after.slots
        == before.slots.insert(addr, SlotState::Disposed))
}

impl MemoryManager for HostMemory {
    closed spec fn view(&self) -> HostMemoryView {
        HostMemoryView {
            slots: Map::new(
                |a: usize| 1 <= a <= self.slots@.len(),
                |a: usize| slot_state(self.slots@[a - 1]),
            ),
            bound: self.bound,
            abi: self.abi,
            max_block: self.max_block as nat,
            disposals: self.disposals as nat,
        }
    }

    open spec fn host_error_text(&self, code: i32) -> Option<Seq<char>> {
        match MgError::spec_from_code(code) {
            Some(m) => Some(m.spec_description()),
            None => None,
        }
    }

    fn max_block(&self) -> (r: usize) {
        self.max_block
    }

    fn write(&mut self, addr: usize, offset: usize, bytes: &[u8]) {
        let updated = overwritten(self.block(addr).unwrap(), offset, bytes);
        self.store(addr, updated);
    }

    fn api_available(&self) -> (r: bool)
    {
        self.bound
    }

    fn abi(&self) -> (r: Abi)
    {
        self.abi
    }

    fn block(&self, addr: usize) -> (r: Option<&[u8]>)
    {
        if addr == 0 || addr > self.slots.len() {
            return None;
        }
        match &self.slots[addr - 1] {
            MasterPointer::Block(b) => Some(b.as_slice()),
            _ => None,
        }
    }

    fn new_handle(&mut self, size: usize) -> (addr: usize)
    {
        self.allocate(size)
    }

    fn check_handle(&self, addr: usize) -> (r: LVStatusCode)
    {
        match self.block(addr) {
            Some(_) => LVStatusCode(0),
            None => LVStatusCode(ARGUMENT_ERROR),
        }
    }

    fn set_handle_size(&mut self, addr: usize, size: usize) -> (r: LVStatusCode)
    {
        let new_bytes = match self.block(addr) {
            None => {
                return LVStatusCode(ARGUMENT_ERROR);
            },
            Some(b) => {
                if size > self.max_block {
                    return LVStatusCode(MEMORY_FULL_ERROR);
                }
                resize_bytes(b, size)
            },
        };
        self.store(addr, new_bytes);
        LVStatusCode(0)
    }

    fn copy_handle(&mut self, dst: &mut usize, src: usize) -> (r: LVStatusCode)
    {
        let copy = match self.block(src) {
            None => {
                return LVStatusCode(ARGUMENT_ERROR);
            },
            Some(b) => copy_of(b),
        };
        if *dst == 0 {
            if self.slots.len() == usize::MAX || copy.len() > self.max_block {
                return LVStatusCode(MEMORY_FULL_ERROR);
            }
            *dst = self.append(copy);
            LVStatusCode(0)
        } else {
            if self.block(*dst).is_none() {
                return LVStatusCode(ARGUMENT_ERROR);
            }
            self.store(*dst, copy);
            LVStatusCode(0)
        }
    }

    fn dispose_handle(&mut self, addr: usize) -> (r: LVStatusCode)
    {
        if self.disposals < usize::MAX {
            self.disposals = self.disposals + 1;
        }
        if addr == 0 || addr > self.slots.len() {
            return LVStatusCode(ARGUMENT_ERROR);
        }
        let held = match &self.slots[addr - 1] {
            MasterPointer::Disposed => false,
            _ => true,
        };
        if !held {
            return LVStatusCode(ARGUMENT_ERROR);
        }
        self.slots.set(addr - 1, MasterPointer::Disposed);
        proof {
            assert(self@.slots =~= old(self)@.slots.insert(addr, SlotState::Disposed));
        }
        LVStatusCode(0)
    }

    fn numeric_array_resize(
        &mut self,
        type_code: i32,
        n_dims: i32,
        h: &mut usize,
        count: usize,
    ) -> (r: LVStatusCode)
    {
        let elem = element_size_of(type_code);
        if elem == 0 || n_dims < 0 {
            return LVStatusCode(ARGUMENT_ERROR);
        }
        let size = match array_block_size_of(n_dims as usize, elem, count, self.abi) {
            Some(n) => n,
            None => {
                return LVStatusCode(MEMORY_FULL_ERROR);
            },
        };
        if *h == 0 {
            if self.slots.len() == usize::MAX || size > self.max_block {
                return LVStatusCode(MEMORY_FULL_ERROR);
            }
            *h = self.allocate(size);
            LVStatusCode(0)
        } else {
            self.set_handle_size(*h, size)
        }
    }

    fn error_code_description(&self, code: i32) -> (r: Option<String>)
    {
        match MgError::from_code(code) {
            Some(m) => Some(String::from_str(m.description())),
            None => None,
        }
    }
}

/// The error for a missing memory manager.
pub fn no_api_error() -> (r: LVInteropError)
    ensures
        no_api(Err::<(), LVInteropError>(r)),
{
    LVInteropError::InternalError(
        InternalError::NoLabviewApi(String::from_str("the memory manager's entry points were not found")),
    )
}

} // verus!
