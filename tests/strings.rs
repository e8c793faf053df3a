use labview_interop::errors::{InternalError, LVInteropError};
use labview_interop::host::{Abi, HostMemory, MemoryManager};
use labview_interop::memory::UHandle;
use labview_interop::string::{LStr, LStrHandle, LStrOwned};

fn linked() -> HostMemory {
    HostMemory::new(Abi::Natural64, true, 1 << 16)
}

#[test]
fn test_lstr_handle_debug() {
    let mut mem = linked();
    let mut handle = LStrHandle::from_raw(mem.new_handle(0));
    handle.set_str(&mut mem, "Hello World").unwrap();
    let debug = handle.debug_text(&mem);
    assert!(debug.contains("Hello World"));
}

#[test]
fn set_and_read_string() {
    let mut mem = linked();
    let mut handle = LStrHandle::from_raw(mem.new_handle(0));
    handle.set(&mut mem, b"abc").unwrap();
    let block = handle.as_ref(&mem).unwrap().to_vec();
    assert_eq!(block, vec![3, 0, 0, 0, b'a', b'b', b'c']);
    let text = handle.read_string(&mem).unwrap();
    assert_eq!(text.as_slice(), b"abc");
    assert_eq!(text.size(), 7);
    assert_eq!(text.to_rust_string(), "abc");
    assert_eq!(LStr::size_with_data(b"hello"), 9);
}

#[test]
fn code_page_text() {
    let mut mem = linked();
    let mut handle = LStrHandle::from_raw(mem.new_handle(0));
    handle.set_str(&mut mem, "caf\u{e9}").unwrap();
    assert_eq!(handle.read_string(&mem).unwrap().as_slice(), &[b'c', b'a', b'f', 0xe9]);
    assert_eq!(handle.read_string(&mem).unwrap().to_rust_string(), "caf\u{e9}");
}

#[test]
fn owned_strings() {
    let mut mem = linked();
    let owned = LStrOwned::from_data(&mut mem, b"Hello World!").unwrap();
    assert_eq!(
        owned.handle().read_string(&mem).unwrap().to_rust_string(),
        "Hello World!"
    );
    let empty = LStrOwned::empty_string(&mut mem).unwrap();
    assert_eq!(empty.handle().read_string(&mem).unwrap().as_slice(), b"");
    let mut changed = owned.try_clone(&mut mem).unwrap();
    changed.handle_to_inner().set_str(&mut mem, "Changed").unwrap();
    assert_eq!(
        owned.handle().read_string(&mem).unwrap().to_rust_string(),
        "Hello World!"
    );
    assert_eq!(
        changed.handle().read_string(&mem).unwrap().to_rust_string(),
        "Changed"
    );
}

#[test]
fn string_errors() {
    let mut mem = linked();
    let handle = UHandle::<LStr>::null();
    assert_eq!(
        handle.read_string(&mem),
        Err(LVInteropError::InternalError(InternalError::InvalidHandle))
    );
    let short = LStrHandle::from_raw(mem.new_handle(2));
    assert!(short.read_string(&mem).is_err());
    assert_eq!(short.debug_text(&mem), "UHandle(Invalid)");
    let mut unlinked = HostMemory::new(Abi::Packed32, false, 64);
    assert!(LStrOwned::from_data(&mut unlinked, b"x").is_err());
}

#[test]
fn string_bytes_in_place() {
    let mut mem = linked();
    let mut handle = LStrHandle::from_raw(mem.new_handle(0));
    handle.set(&mut mem, b"abc").unwrap();
    let mut text = handle.read_string(&mem).unwrap();
    text.as_mut_slice()[0] = b'x';
    assert_eq!(text.as_slice(), b"xbc");
    assert_eq!(handle.read_string(&mem).unwrap().as_slice(), b"abc");
}
