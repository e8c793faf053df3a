//! Handles and pointers into the host's memory, and handles that own their
//! blocks.
use core::marker::PhantomData;
use vstd::prelude::*;

use crate::errors::{InternalError, LVInteropError, Result};
use crate::host::{
    copy_entry_outcome, no_api, no_api_error, overwrite, released, resized, HostMemoryView, MemoryManager, SlotState, ARGUMENT_ERROR,
    MEMORY_FULL_ERROR,
};
use crate::status::LVStatusCode;

verus! {

/// Values that the host stores as plain bytes, so that a block may hold one
/// and a shallow copy duplicates it.
pub trait LVCopy: Sized {
    /// The bytes of the value as the host stores it.
    spec fn host_bytes(&self) -> Seq<u8>;

    /// The bytes of the value as the host stores it.
    fn to_host_bytes(&self) -> (r: Vec<u8>)
        ensures
            r@ == self.host_bytes(),
    ;
}

/// A handle from the host: the address of a master pointer, which holds the
/// address of a block of bytes that encodes a `T`. Address zero is null.
///
/// A handle does not own its block; see [`OwnedUHandle`].
pub struct UHandle<T> {
    pub addr: usize,
    pub marker: PhantomData<T>,
}

/// The error of an operation on an invalid handle.
pub open spec fn invalid_handle() -> LVInteropError {
    LVInteropError::InternalError(InternalError::InvalidHandle)
}

/// The result of a host entry point that answered `status`.
pub open spec fn status_result(status: LVStatusCode) -> Result<()> {
    if status.0 == 0 {
        Ok(())
    } else {
        Err(crate::errors::specific_error(status))
    }
}

impl<T> UHandle<T> {
    /// The handle at address `addr`.
    pub fn from_raw(addr: usize) -> (r: Self)
        ensures
            r.addr == addr,
    {
        UHandle { addr, marker: PhantomData }
    }

    /// The null handle.
    pub fn null() -> (r: Self)
        ensures
            r.addr == 0,
    {
        UHandle { addr: 0, marker: PhantomData }
    }

    /// A second handle to the same block.
    pub fn alias(&self) -> (r: Self)
        ensures
            r.addr == self.addr,
    {
        UHandle { addr: self.addr, marker: PhantomData }
    }

    /// The bytes of the block. Fails with `InvalidHandle` where the handle
    /// or its master pointer is null, or the block was released.
    pub fn as_ref<'a, M: MemoryManager>(&self, mem: &'a M) -> (r: Result<&'a [u8]>)
        ensures
            mem@.contents(self.addr) matches Some(b) ==> (r matches Ok(v) && v@ == b),
            mem@.contents(self.addr) is None ==> r == Err::<&[u8], LVInteropError>(
                invalid_handle(),
            ),
    {
        match mem.block(self.addr) {
            Some(b) => Ok(b),
            None => Err(LVInteropError::InternalError(InternalError::InvalidHandle)),
        }
    }

    /// Writes `bytes` into the block from `offset` on. Fails with
    /// `InvalidHandle` where the handle reaches no block; the bytes must fit
    /// the block.
    pub fn write_bytes<M: MemoryManager>(&self, mem: &mut M, offset: usize, bytes: &[u8]) -> (r: Result<
        (),
    >)
        requires
            old(mem)@.contents(self.addr) matches Some(b) ==> offset + bytes@.len() <= b.len(),
        ensures
            old(mem)@.contents(self.addr) is None ==> r == Err::<(), LVInteropError>(
                invalid_handle(),
            ) && final(mem)@ == old(mem)@,
            old(mem)@.contents(self.addr) matches Some(b) ==> r is Ok && final(mem)@ == old(
                mem,
            )@.with_contents(self.addr, overwrite(b, offset as int, bytes@)),
    {
        if mem.block(self.addr).is_none() {
            return Err(LVInteropError::InternalError(InternalError::InvalidHandle));
        }
        mem.write(self.addr, offset, bytes);
        Ok(())
    }

    /// Whether the handle is usable: neither it nor its master pointer is
    /// null, and, where the host's entry points are available, the host
    /// knows the block.
    pub fn valid<M: MemoryManager>(&self, mem: &M) -> (r: bool)
        ensures
            r == (mem@.contents(self.addr) is Some),
    {
        if mem.block(self.addr).is_none() {
            return false;
        }
        if mem.api_available() {
            mem.check_handle(self.addr).0 == 0
        } else {
            true
        }
    }

    /// Resizes the block to `size` bytes through the host; the block may
    /// move, and bytes past the old size are zero.
    pub fn resize<M: MemoryManager>(&mut self, mem: &mut M, size: usize) -> (r: Result<()>)
        ensures
            *final(self) == *old(self),
            !old(mem)@.bound ==> no_api(r) && final(mem)@ == old(mem)@,
            old(mem)@.bound ==> (r is Ok ==> (old(mem)@.contents(old(self).addr) matches Some(b)
                && final(mem)@ == old(mem)@.with_contents(old(self).addr, resized(b, size as nat)))),
            old(mem)@.bound ==> (r is Err ==> host_failure(r) && final(mem)@ == old(mem)@),
            old(mem)@.bound && old(mem)@.contents(old(self).addr) is None ==> r is Err,
    {
        if !mem.api_available() {
            return Err(no_api_error());
        }
        let status = mem.set_handle_size(self.addr, size);
        let r = status.to_specific_result(());
        proof {
            lemma_status_result(status, r);
        }
        r
    }

    /// Copies the bytes of this handle's block into the block of `*other`,
    /// which takes this block's size; where `*other` is null, the host
    /// allocates a block for the copy and `*other` becomes its handle.
    ///
    /// The copy is shallow: a handle stored inside the bytes is copied as an
    /// address, so both blocks then share what it reaches.
    pub fn clone_into_pointer<M: MemoryManager>(&self, mem: &mut M, other: &mut UHandle<T>) -> (r: Result<
        (),
    >)
        ensures
            !old(mem)@.bound ==> no_api(r) && final(mem)@ == old(mem)@ && final(other).addr == old(other).addr,
            old(mem)@.bound ==> copy_outcome(old(mem)@, final(mem)@, self.addr, old(other).addr,
                final(other).addr, r),
    {
        if !mem.api_available() {
            return Err(no_api_error());
        }
        let mut target = other.addr;
        let status = mem.copy_handle(&mut target, self.addr);
        other.addr = target;
        let r = status.to_specific_result(());
        proof {
            lemma_status_result(status, r);
            assert(copy_entry_outcome(old(mem)@, mem@, self.addr, old(other).addr, target, status));
        }
        r
    }
}

/// A handle that owns its block: it was allocated for it, and releasing it
/// returns the block to the host.
pub struct OwnedUHandle<T> {
    handle: UHandle<T>,
}

impl<T> OwnedUHandle<T> {
    /// The address of the owned handle.
    pub closed spec fn addr(&self) -> usize {
        self.handle.addr
    }

    /// Allocates a block for `value` and copies the value's bytes into it.
    /// Fails with `HandleCreationFailed` where the host hands out no block.
    pub fn new<M: MemoryManager>(mem: &mut M, value: &T) -> (r: Result<Self>)
        where
            T: LVCopy,
        ensures
            !old(mem)@.bound ==> no_api(r) && final(mem)@ == old(mem)@,
            old(mem)@.bound ==> (r matches Ok(o) ==> old(mem)@.fresh(o.addr()) && final(mem)@
                == old(mem)@.with_contents(o.addr(), value.host_bytes())),
            old(mem)@.bound ==> (r is Err ==> creation_failed(r) && final(mem)@ == old(mem)@),
    {
        if !mem.api_available() {
            return Err(no_api_error());
        }
        let bytes = value.to_host_bytes();
        let addr = mem.new_handle(bytes.len());
        if addr == 0 {
            return Err(LVInteropError::InternalError(InternalError::HandleCreationFailed));
        }
        let handle = UHandle { addr, marker: PhantomData };
        let _ = handle.write_bytes(mem, 0, bytes.as_slice());
        proof {
            assert(overwrite(Seq::new(bytes@.len(), |i: int| 0u8), 0, bytes@) =~= bytes@);
            assert(mem@.slots =~= old(mem)@.with_contents(addr, bytes@).slots);
        }
        Ok(OwnedUHandle { handle })
    }

    /// Allocates an empty block and lets `init` fill it in through its
    /// handle, for values whose size is known only once they are written.
    /// Where `init` fails, the block is released again and its error comes
    /// back.
    pub fn new_unsized<M: MemoryManager, F: FnOnce(&mut M, &mut UHandle<T>) -> Result<()>>(
        mem: &mut M,
        init: F,
    ) -> (r: Result<Self>)
        requires
            forall|m: &mut M, h: &mut UHandle<T>| init.requires((m, h)),
        ensures
            !old(mem)@.bound ==> no_api(r) && final(mem)@ == old(mem)@,
            old(mem)@.bound ==> (creation_failed(r) && final(mem)@ == old(mem)@) || exists|
                m: &mut M,
                h: &mut UHandle<T>,
                outcome: Result<()>,
            |
                #![trigger init.ensures((m, h), outcome)]
                old(mem)@.fresh(h.addr) && m@ == old(mem)@.with_contents(h.addr, Seq::empty())
                    && init.ensures((m, h), outcome) && match outcome {
                    Ok(()) => r matches Ok(o) && o.addr() == final(h).addr
                        && final(mem)@ == final(m)@,
                    Err(e) => r == Err::<Self, LVInteropError>(e) && released(
                        final(m)@,
                        final(mem)@,
                        final(h).addr,
                    ),
                },
    {
        let mut handle = match OwnedUHandle::<T>::allocate_empty(mem) {
            Ok(h) => h,
            Err(e) => {
                return Err(e);
            },
        };
        match init(mem, &mut handle) {
            Ok(()) => Ok(OwnedUHandle { handle }),
            Err(e) => {
                let _ = mem.dispose_handle(handle.addr);
                Err(e)
            },
        }
    }

    /// Takes ownership of a handle that was allocated for it.
    pub(crate) fn from_allocated(handle: UHandle<T>) -> (r: Self)
        ensures
            r.addr() == handle.addr,
    {
        OwnedUHandle { handle }
    }

    /// Allocates an empty block to fill in afterwards.
    pub(crate) fn allocate_empty<M: MemoryManager>(mem: &mut M) -> (r: Result<UHandle<T>>)
        ensures
            !old(mem)@.bound ==> no_api(r) && final(mem)@ == old(mem)@,
            old(mem)@.bound ==> (r matches Ok(h) ==> old(mem)@.fresh(h.addr) && final(mem)@ == old(
                mem,
            )@.with_contents(h.addr, Seq::empty())),
            old(mem)@.bound ==> (r is Err ==> creation_failed(r) && final(mem)@ == old(mem)@),
    {
        if !mem.api_available() {
            return Err(no_api_error());
        }
        let addr = mem.new_handle(0);
        if addr == 0 {
            return Err(LVInteropError::InternalError(InternalError::HandleCreationFailed));
        }
        proof {
            assert(Seq::new(0, |i: int| 0u8) =~= Seq::<u8>::empty());
        }
        Ok(UHandle { addr, marker: PhantomData })
    }

    /// A borrowed handle to the owned block.
    pub fn handle_to_inner(&mut self) -> (r: UHandle<T>)
        ensures
            r.addr == old(self).addr(),
            final(self).addr() == old(self).addr(),
    {
        self.handle.alias()
    }

    /// The owned handle.
    pub fn handle(&self) -> (r: &UHandle<T>)
        ensures
            r.addr == self.addr(),
    {
        &self.handle
    }

    /// A second owned handle with a copy of this block's bytes. Where the
    /// copy fails, the block allocated for it is released again.
    pub fn try_clone<M: MemoryManager>(&self, mem: &mut M) -> (r: Result<Self>)
        ensures
            !old(mem)@.bound ==> no_api(r) && final(mem)@ == old(mem)@,
            old(mem)@.bound ==> owned_copy_outcome(old(mem)@, final(mem)@, self.addr(), r),
    {
        self.handle.try_to_owned(mem)
    }

    /// Releases the block through the host. A failure is reported in the
    /// result, which is where a caller observes it; nothing else is left to
    /// undo.
    ///
    /// Release is this explicit call rather than a `Drop` impl: releasing
    /// needs the memory manager, which a destructor has no way to reach.
    pub fn dispose<M: MemoryManager>(self, mem: &mut M) -> (r: Result<()>)
        ensures
            !old(mem)@.bound ==> no_api(r) && final(mem)@ == old(mem)@,
            old(mem)@.bound ==> released(old(mem)@, final(mem)@, self.addr()),
            old(mem)@.bound ==> (r is Ok ==> !(old(mem)@.slot(self.addr()) is Disposed)
                && final(mem)@.slots == old(mem)@.slots.insert(self.addr(), SlotState::Disposed)),
            old(mem)@.bound ==> (r is Err ==> host_failure(r) && final(mem)@.slots == old(
                mem,
            )@.slots),
            old(mem)@.bound && old(mem)@.slot(self.addr()) is Disposed ==> r is Err,
    {
        if !mem.api_available() {
            return Err(no_api_error());
        }
        let status = mem.dispose_handle(self.handle.addr);
        let r = status.to_specific_result(());
        proof {
            lemma_status_result(status, r);
        }
        r
    }
}

impl<T> UHandle<T> {
    /// A handle that owns a copy of this block's bytes. Fails with
    /// `InvalidHandle` where this handle reaches no block; where the copy
    /// fails, the block allocated for it is released again.
    pub fn try_to_owned<M: MemoryManager>(&self, mem: &mut M) -> (r: Result<OwnedUHandle<T>>)
        ensures
            !old(mem)@.bound ==> no_api(r) && final(mem)@ == old(mem)@,
            old(mem)@.bound ==> owned_copy_outcome(old(mem)@, final(mem)@, self.addr, r),
    {
        if !mem.api_available() {
            return Err(no_api_error());
        }
        if mem.block(self.addr).is_none() {
            return Err(LVInteropError::InternalError(InternalError::InvalidHandle));
        }
        let mut target = match OwnedUHandle::<T>::allocate_empty(mem) {
            Ok(h) => h,
            Err(e) => {
                return Err(e);
            },
        };
        let ghost before = old(mem)@;
        let ghost allocated = mem@;
        let ghost addr = target.addr;
        proof {
            assert(allocated.contents(self.addr) == before.contents(self.addr));
        }
        match self.clone_into_pointer(mem, &mut target) {
            Ok(()) => {
                proof {
                    let b = before.contents(self.addr).unwrap();
                    let s = choose|s: LVStatusCode|
                        #![trigger copy_entry_outcome(allocated, mem@, self.addr, addr, target.addr, s)]
                        copy_entry_outcome(allocated, mem@, self.addr, addr, target.addr, s)
                            && Ok::<(), LVInteropError>(()) == status_result(s);
                    assert(mem@.slots =~= before.with_contents(addr, b).slots);
                    assert(mem@ == before.with_contents(addr, b));
                }
                Ok(OwnedUHandle { handle: target })
            },
            Err(e) => {
                let ghost failed = mem@;
                let _ = mem.dispose_handle(target.addr);
                proof {
                    let s = choose|s: LVStatusCode|
                        #![trigger copy_entry_outcome(allocated, failed, self.addr, addr, target.addr, s)]
                        copy_entry_outcome(allocated, failed, self.addr, addr, target.addr, s)
                            && Err::<(), LVInteropError>(e) == status_result(s);
                    assert(failed == allocated);
                    assert(released(before.with_contents(addr, Seq::empty()), mem@, addr));
                    assert(host_failure(Err::<OwnedUHandle<T>, LVInteropError>(e))) by {
                        assert(s.0 != 0 && e == crate::errors::specific_error(s));
                    }
                }
                Err(e)
            },
        }
    }
}

/// The owned handle under its earlier name.
pub type LvOwned<T> = OwnedUHandle<T>;

/// A reference number of the host for objects such as user events and
/// occurrences.
#[derive(Debug, Clone, Copy, PartialEq, Eq, Structural)]
pub struct MagicCookie(pub u32);

/// A single-indirection pointer from the host: either null or a reference
/// to one value, which it does not own.
pub struct UPtr<T>(pub Option<T>);

impl<T> UPtr<T> {
    /// A pointer to `value`.
    pub fn new(value: T) -> (r: Self)
        ensures
            r.0 == Some(value),
    {
        UPtr(Some(value))
    }

    /// The null pointer.
    pub fn null() -> (r: Self)
        ensures
            r.0 is None,
    {
        UPtr(None)
    }

    /// The value pointed to. Fails with `InvalidHandle` for the null
    /// pointer.
    pub fn as_ref(&self) -> (r: Result<&T>)
        ensures
            self.0 matches Some(v) ==> r == Ok::<&T, LVInteropError>(&v),
            self.0 is None ==> r == Err::<&T, LVInteropError>(invalid_handle()),
    {
        match &self.0 {
            Some(v) => Ok(v),
            None => Err(LVInteropError::InternalError(InternalError::InvalidHandle)),
        }
    }

    /// The value pointed to, for writing. Fails with `InvalidHandle` for the
    /// null pointer.
    pub fn as_ref_mut(&mut self) -> (r: Result<&mut T>)
        ensures
            old(self).0 is None ==> (r matches Err(e) && e == invalid_handle() && final(self).0 is None),
            old(self).0 matches Some(v) ==> (r matches Ok(x) && *x == v && final(self).0 == Some(
                *final(x),
            )),
    {
        match &mut self.0 {
            Some(v) => Ok(v),
            None => Err(LVInteropError::InternalError(InternalError::InvalidHandle)),
        }
    }
}

/// True of the error for a host that handed out no block.
pub open spec fn creation_failed<A>(r: Result<A>) -> bool {
    r matches Err(LVInteropError::InternalError(InternalError::HandleCreationFailed))
}

/// True of an error that the host reported with a status code.
pub open spec fn host_failure<A>(r: Result<A>) -> bool {
    r matches Err(e) && exists|s: LVStatusCode|
        #![trigger crate::errors::specific_error(s)]
        s.0 != 0 && e == crate::errors::specific_error(s)
}

/// The result of a host entry point is the one its status gives.
proof fn lemma_status_result(status: LVStatusCode, r: Result<()>)
    requires
        status.0 == 0 ==> r == Ok::<(), LVInteropError>(()),
        status.0 != 0 ==> r == Err::<(), LVInteropError>(crate::errors::specific_error(status)),
    ensures
        r == status_result(status),
        r is Err ==> host_failure(r),
{
}

/// What copying the block at `src` into a newly owned handle leaves: where
/// `src` reaches no block, `InvalidHandle` and the memory as it was; on
/// success a new block, at an address that held no live block, with the
/// source's bytes; on failure either no allocation at all, or the host's
/// error with the block allocated for the copy released again.
pub open spec fn owned_copy_outcome<T>(
    before: HostMemoryView,
    after: HostMemoryView,
    src: usize,
    r: Result<OwnedUHandle<T>>,
) -> bool {
    match before.contents(src) {
        None => r == Err::<OwnedUHandle<T>, LVInteropError>(invalid_handle()) && after == before,
        Some(b) => match r {
            Ok(o) => before.fresh(o.addr()) && after == before.with_contents(o.addr(), b),
            Err(_) => (creation_failed(r) && after == before) || (host_failure(r) && exists|
                a: usize,
            |
                #![trigger before.fresh(a)]
                before.fresh(a) && released(before.with_contents(a, Seq::empty()), after, a)),
        },
    }
}

/// What a copy of the block at `src` into the handle at `dst` leaves: the
/// memory and handle that the host's copy entry point leaves, and the
/// result its status gives.
pub open spec fn copy_outcome(
    before: HostMemoryView,
    after: HostMemoryView,
    src: usize,
    dst: usize,
    dst_after: usize,
    r: Result<()>,
) -> bool {
    exists|s: LVStatusCode|
        #![trigger copy_entry_outcome(before, after, src, dst, dst_after, s)]
        copy_entry_outcome(before, after, src, dst, dst_after, s) && r == status_result(s)
}

} // verus!

verus! {

/// A handle is valid exactly where it reaches a live block: never where the
/// handle itself or its master pointer is null, always for the handle that
/// an allocation just returned.
pub proof fn lemma_validity(m: HostMemoryView, addr: usize, size: usize)
    ensures
        m.contents(0) is None,
        m.slot(addr) is Null ==> m.contents(addr) is None,
        m.fresh(addr) ==> m.with_contents(addr, Seq::new(size as nat, |i: int| 0u8)).contents(
            addr,
        ) is Some,
{
}

/// Resizing a block to `bytes.len()` bytes and writing `bytes` from the
/// start leaves exactly `bytes` in it, whatever the layout in force.
pub proof fn lemma_resize_then_read(m: HostMemoryView, addr: usize, bytes: Seq<u8>)
    requires
        m.contents(addr) is Some,
    ensures
        ({
            let sized = resized(m.contents(addr).unwrap(), bytes.len());
            let written = m.with_contents(addr, sized).with_contents(
                addr,
                overwrite(sized, 0, bytes),
            );
            written.contents(addr) == Some(bytes)
        }),
{
    let b = m.contents(addr).unwrap();
    let sized = resized(b, bytes.len());
    assert(sized.len() == bytes.len());
    assert(overwrite(sized, 0, bytes) =~= bytes);
}

/// A copy into a null handle makes a new block with the source's bytes, and
/// later writes to the source's block leave the copy as it was.
pub proof fn lemma_copy_into_null(
    before: HostMemoryView,
    after: HostMemoryView,
    src: usize,
    dst_after: usize,
    r: Result<()>,
    later: Seq<u8>,
)
    requires
        copy_outcome(before, after, src, 0, dst_after, r),
        r is Ok,
    ensures
        before.fresh(dst_after),
        after.contents(dst_after) == before.contents(src),
        dst_after != src,
        after.with_contents(src, later).contents(dst_after) == after.contents(dst_after),
{
    let s = choose|s: LVStatusCode|
        #![trigger copy_entry_outcome(before, after, src, 0, dst_after, s)]
        copy_entry_outcome(before, after, src, 0, dst_after, s) && r == status_result(s);
    assert(s.0 == 0);
}

} // verus!
