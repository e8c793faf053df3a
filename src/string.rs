//! The host's length-prefixed strings.
//!
//! A host string block holds its byte count as a 32-bit integer, least
//! significant byte first, followed by the bytes themselves, which are text
//! in the host's single-byte code page.
use vstd::bytes::*;
use vstd::prelude::*;

use crate::errors::{specific_error, InternalError, LVInteropError, Result};
use crate::host::{no_api, released, resized, HostMemoryView, MemoryManager};
use crate::host::overwrite;
use crate::memory::{creation_failed, host_failure, invalid_handle, OwnedUHandle, UHandle};
use crate::status::LVStatusCode;

verus! {

/// The bytes that the host's code page gives a text.
pub uninterp spec fn lv_encoded(text: Seq<char>) -> Seq<u8>;

/// The text that decoding a sequence of bytes gives: by the host's code page,
/// or, where the bytes start with a UTF-8 or UTF-16 byte-order mark, by the
/// encoding that the mark names.
pub uninterp spec fn lv_decoded(bytes: Seq<u8>) -> Seq<char>;

/// True of a text of ASCII characters only.
pub open spec fn ascii_text(text: Seq<char>) -> bool {
    forall|i: int| 0 <= i < text.len() ==> (text[i] as u32) < 128
}

/// True of bytes below 128 only.
pub open spec fn ascii_bytes(bytes: Seq<u8>) -> bool {
    forall|i: int| 0 <= i < bytes.len() ==> bytes[i] < 128
}

/// Relies on encoding_rs's `Encoding::encode` for windows-1252, the host's
/// code page: the result depends on the text alone, and ASCII text keeps
/// its bytes.
#[verifier::external_body]
fn encode_text(text: &str) -> (r: Vec<u8>)
    ensures
        r@ == lv_encoded(text@),
        ascii_text(text@) ==> r@ == Seq::new(text@.len(), |i: int| text@[i] as u8),
{
    let (bytes, _, _) = encoding_rs::WINDOWS_1252.encode(text);
    bytes.into_owned()
}

/// Relies on encoding_rs's `Encoding::decode` for windows-1252, the host's
/// code page, which follows a byte-order mark where there is one: the
/// result depends on the bytes alone, and ASCII bytes keep their values.
#[verifier::external_body]
fn decode_text(bytes: &[u8]) -> (r: String)
    ensures
        r@ == lv_decoded(bytes@),
        ascii_bytes(bytes@) ==> r@ == Seq::new(bytes@.len(), |i: int| bytes@[i] as char),
{
    let (text, _, _) = encoding_rs::WINDOWS_1252.decode(bytes);
    text.into_owned()
}

/// The size of the byte-count header of a host string.
pub const LSTR_HEADER: usize = 4;

/// The block of a host string that holds `data`.
pub open spec fn lstr_block(data: Seq<u8>) -> Seq<u8> {
    spec_u32_to_le_bytes(data.len() as u32) + data
}

/// The bytes of the host string that a block holds, where the block is
/// long enough for its header and the count it gives.
pub open spec fn lstr_data(block: Seq<u8>) -> Option<Seq<u8>> {
    if block.len() < 4 {
        None
    } else {
        let n = spec_u32_from_le_bytes(block.take(4)) as int;
        if n <= i32::MAX && 4 + n <= block.len() {
            Some(block.subrange(4, 4 + n))
        } else {
            None
        }
    }
}

/// The bytes of a host string, read out of its block.
#[derive(Debug, Clone, PartialEq, Eq)]
pub struct LStr {
    data: Vec<u8>,
}

impl View for LStr {
    type V = Seq<u8>;

    closed spec fn view(&self) -> Seq<u8> {
        self.data@
    }
}

impl LStr {
    /// The string's bytes.
    pub fn as_slice(&self) -> (r: &[u8])
        ensures
            r@ == self@,
    {
        self.data.as_slice()
    }

    /// The bytes of this copy of the string, for editing. The host's block
    /// is not changed; `set` stores edited bytes back through a handle.
    pub fn as_mut_slice(&mut self) -> (r: &mut [u8])
        ensures
            r@ == old(self)@,
            final(self)@ == final(r)@,
    {
        self.data.as_mut_slice()
    }

    /// The size of the string's block: the header and the bytes.
    pub fn size(&self) -> (r: usize)
        requires
            self@.len() <= i32::MAX,
        ensures
            r == 4 + self@.len(),
    {
        LSTR_HEADER + self.data.len()
    }

    /// The size of the block of a string that holds `data`.
    pub fn size_with_data(data: &[u8]) -> (r: usize)
        requires
            data@.len() <= i32::MAX,
        ensures
            r == 4 + data@.len(),
    {
        LSTR_HEADER + data.len()
    }

    /// The string as text, decoded from the host's code page.
    pub fn to_rust_string(&self) -> (r: String)
        ensures
            r@ == lv_decoded(self@),
    {
        decode_text(self.data.as_slice())
    }
}

/// A handle to a host string.
pub type LStrHandle = UHandle<LStr>;

/// An owned handle to a host string.
pub type LStrOwned = OwnedUHandle<LStr>;

/// What storing `data` through a string handle at `addr` leaves: the
/// memory after it and the result.
pub open spec fn set_outcome(
    before: HostMemoryView,
    after: HostMemoryView,
    addr: usize,
    data: Seq<u8>,
    r: Result<()>,
) -> bool {
    if !before.bound {
        no_api(r) && after == before
    } else {
        &&& r is Ok ==> before.contents(addr) is Some && after == before.with_contents(
            addr,
            lstr_block(data),
        )
        &&& r is Err ==> host_failure(r) && after == before
        &&& before.contents(addr) is None ==> r is Err
    }
}

/// What making a new owned string that holds `data` leaves: on success a
/// new block, at an address that held no live block, holding the string; on
/// failure either no allocation at all, or the host's error with the block
/// allocated for the string released again.
pub open spec fn owned_string_outcome(
    before: HostMemoryView,
    after: HostMemoryView,
    data: Seq<u8>,
    r: Result<OwnedUHandle<LStr>>,
) -> bool {
    if !before.bound {
        no_api(r) && after == before
    } else {
        match r {
            Ok(o) => before.fresh(o.addr()) && after == before.with_contents(
                o.addr(),
                lstr_block(data),
            ),
            Err(_) => (creation_failed(r) && after == before) || (host_failure(r) && exists|
                a: usize,
            |
                #![trigger before.fresh(a)]
                before.fresh(a) && released(before.with_contents(a, Seq::empty()), after, a)),
        }
    }
}

impl UHandle<LStr> {
    /// The host string the handle reaches. Fails with `InvalidHandle` where
    /// it reaches no block, or a block too short for its header and count.
    pub fn read_string<M: MemoryManager>(&self, mem: &M) -> (r: Result<LStr>)
        ensures
            match mem@.contents(self.addr) {
                Some(b) => match lstr_data(b) {
                    Some(d) => r matches Ok(s) && s@ == d,
                    None => r == Err::<LStr, LVInteropError>(invalid_handle()),
                },
                None => r == Err::<LStr, LVInteropError>(invalid_handle()),
            },
    {
        let block = match self.as_ref(mem) {
            Ok(b) => b,
            Err(e) => {
                return Err(e);
            },
        };
        if block.len() < LSTR_HEADER {
            return Err(LVInteropError::InternalError(InternalError::InvalidHandle));
        }
        let n = u32_from_le_bytes(&block[0..4]);
        proof {
            assert(block@.subrange(0, 4) =~= block@.take(4));
        }
        if n > i32::MAX as u32 || n as usize > block.len() - LSTR_HEADER {
            return Err(LVInteropError::InternalError(InternalError::InvalidHandle));
        }
        let end = LSTR_HEADER + n as usize;
        let mut data: Vec<u8> = Vec::new();
        let mut i: usize = LSTR_HEADER;
        while i < end
            invariant
                LSTR_HEADER <= i <= end,
                end <= block@.len(),
                data@ =~= block@.subrange(4, i as int),
            decreases end - i,
        {
            data.push(block[i]);
            i = i + 1;
        }
        Ok(LStr { data })
    }

    /// The handle as text: `UHandle(` and the quoted text, or
    /// `UHandle(Invalid)` where it reaches no string.
    pub fn debug_text<M: MemoryManager>(&self, mem: &M) -> (r: String)
        ensures
            match mem@.contents(self.addr) {
                Some(b) => match lstr_data(b) {
                    Some(d) => r@ == "UHandle(\""@ + lv_decoded(d) + "\")"@,
                    None => r@ == "UHandle(Invalid)"@,
                },
                None => r@ == "UHandle(Invalid)"@,
            },
    {
        match self.read_string(mem) {
            Ok(s) => {
                let text = String::from_str("UHandle(\"");
                let inner = s.to_rust_string();
                let text = text.concat(inner.as_str());
                text.concat("\")")
            },
            Err(_) => String::from_str("UHandle(Invalid)"),
        }
    }

    /// Stores `value` as the string: resizes the block to the header and
    /// the bytes, then writes both.
    pub fn set<M: MemoryManager>(&mut self, mem: &mut M, value: &[u8]) -> (r: Result<()>)
        requires
            value@.len() <= i32::MAX,
        ensures
            *final(self) == *old(self),
            set_outcome(old(mem)@, final(mem)@, old(self).addr, value@, r),
    {
        let total = LStr::size_with_data(value);
        let resized_result = self.resize(mem, total);
        if resized_result.is_err() {
            return resized_result;
        }
        let header = u32_to_le_bytes(value.len() as u32);
        let _ = self.write_bytes(mem, 0, header.as_slice());
        let _ = self.write_bytes(mem, LSTR_HEADER, value);
        proof {
            let b = old(mem)@.contents(self.addr).unwrap();
            let s = resized(b, total as nat);
            let s1 = overwrite(s, 0, header@);
            let s2 = overwrite(s1, 4, value@);
            assert(s2 =~= lstr_block(value@));
            assert(mem@.slots =~= old(mem)@.with_contents(self.addr, lstr_block(value@)).slots);
        }
        Ok(())
    }

    /// Stores `value`, encoded in the host's code page, as the string.
    /// Fails with `ArrayDimensionsOutOfRange` where the encoded text is
    /// longer than a host string can be.
    pub fn set_str<M: MemoryManager>(&mut self, mem: &mut M, value: &str) -> (r: Result<()>)
        ensures
            *final(self) == *old(self),
            lv_encoded(value@).len() <= i32::MAX ==> set_outcome(
                old(mem)@,
                final(mem)@,
                old(self).addr,
                lv_encoded(value@),
                r,
            ),
            lv_encoded(value@).len() > i32::MAX ==> r == Err::<(), LVInteropError>(
                LVInteropError::InternalError(InternalError::ArrayDimensionsOutOfRange),
            ) && final(mem)@ == old(mem)@,
    {
        let bytes = encode_text(value);
        if bytes.len() > i32::MAX as usize {
            return Err(LVInteropError::InternalError(InternalError::ArrayDimensionsOutOfRange));
        }
        self.set(mem, bytes.as_slice())
    }
}

impl OwnedUHandle<LStr> {
    /// A new owned string that holds `data`. Where storing the bytes fails,
    /// the block allocated for them is released again.
    pub fn from_data<M: MemoryManager>(mem: &mut M, data: &[u8]) -> (r: Result<Self>)
        requires
            data@.len() <= i32::MAX,
        ensures
            owned_string_outcome(old(mem)@, final(mem)@, data@, r),
    {
        let mut handle = match OwnedUHandle::<LStr>::allocate_empty(mem) {
            Ok(h) => h,
            Err(e) => {
                return Err(e);
            },
        };
        let ghost allocated = mem@;
        let ghost addr = handle.addr;
        match handle.set(mem, data) {
            Ok(()) => {
                proof {
                    assert(mem@.slots =~= old(mem)@.with_contents(addr, lstr_block(data@)).slots);
                }
                Ok(OwnedUHandle::from_allocated(handle))
            },
            Err(e) => {
                let _ = mem.dispose_handle(handle.addr);
                proof {
                    assert(old(mem)@.fresh(addr));
                }
                Err(e)
            },
        }
    }

    /// A new owned empty string.
    pub fn empty_string<M: MemoryManager>(mem: &mut M) -> (r: Result<Self>)
        ensures
            owned_string_outcome(old(mem)@, final(mem)@, Seq::empty(), r),
    {
        let empty: [u8; 0] = [];
        proof {
            assert(empty@.len() == 0);
        }
        let r = Self::from_data(mem, empty.as_slice());
        proof {
            assert(empty@ =~= Seq::<u8>::empty());
        }
        r
    }
}

/// Storing bytes as a host string and reading the string back gives the
/// same bytes.
pub proof fn lemma_string_round_trip(data: Seq<u8>)
    requires
        data.len() <= i32::MAX,
    ensures
        lstr_data(lstr_block(data)) == Some(data),
{
    lemma_auto_spec_u32_to_from_le_bytes();
    let block = lstr_block(data);
    assert(block.take(4) =~= spec_u32_to_le_bytes(data.len() as u32));
    assert(block.subrange(4, 4 + data.len() as int) =~= data);
}

} // verus!
