use labview_interop::errors::{InternalError, LVInteropError};
use labview_interop::host::{Abi, HostMemory, MemoryManager};
use labview_interop::memory::{OwnedUHandle, UHandle, UPtr};
use labview_interop::mg_error::MgError;

fn linked() -> HostMemory {
    HostMemory::new(Abi::Natural64, true, 1 << 16)
}

fn unlinked() -> HostMemory {
    HostMemory::new(Abi::Natural64, false, 1 << 16)
}

fn handle_to(mem: &mut HostMemory, value: i32) -> UHandle<i32> {
    let handle = UHandle::<i32>::from_raw(mem.new_handle(4));
    handle.write_value(mem, value).unwrap();
    handle
}

#[test]
fn lv_owned_test_lvowned_debug() {
    let mut mem = linked();
    let owned = OwnedUHandle::new(&mut mem, &42i32).unwrap();
    assert_eq!(owned.debug_text(&mem), "LvOwned(42)");
}

#[test]
fn owned_handle_test_lvowned_debug() {
    let mut mem = unlinked();
    let handle = handle_to(&mut mem, 42);
    let mut linked_mem = linked();
    let owned = OwnedUHandle::new(&mut linked_mem, &42i32).unwrap();
    assert_eq!(owned.debug_text(&linked_mem), "LvOwned(42)");
    assert_eq!(handle.debug_text(&mem), "UHandle(42)");
}

#[test]
fn test_handle_debug() {
    let mut mem = unlinked();
    let handle = handle_to(&mut mem, 42);
    assert_eq!(handle.debug_text(&mem), "UHandle(42)");
}

#[test]
fn test_invalid_handle_debug() {
    let mem = unlinked();
    let handle = UHandle::<i32>::null();
    assert_eq!(handle.debug_text(&mem), "UHandle(Invalid)");
}

#[test]
fn test_handle_debug_inner_from_reference() {
    let mut mem = unlinked();
    let handle = handle_to(&mut mem, 42);
    assert_eq!(format!("{:?}", handle.read_value(&mem).unwrap()), "42");
}

#[test]
fn test_handle_deref() {
    let mut mem = unlinked();
    let handle = handle_to(&mut mem, 42);
    assert_eq!(handle.read_value(&mem).unwrap(), 42);
}

#[test]
fn test_handle_deref_mut() {
    let mut mem = unlinked();
    let handle = handle_to(&mut mem, 42);
    handle.write_value(&mut mem, 43).unwrap();
    assert_eq!(handle.read_value(&mem).unwrap(), 43);
}

#[test]
fn handle_as_ref_valid() {
    let mut mem = unlinked();
    let handle = handle_to(&mut mem, 42);
    assert_eq!(handle.as_ref(&mem).unwrap(), &42i32.to_le_bytes());
}

#[test]
fn handle_as_ref_outer_null() {
    let mem = unlinked();
    let handle = UHandle::<i32>::null();
    assert!(handle.as_ref(&mem).is_err());
}

#[test]
fn handle_as_ref_inner_null() {
    let mut mem = unlinked();
    let handle = UHandle::<i32>::from_raw(mem.new_null_master_pointer());
    assert!(handle.as_ref(&mem).is_err());
}

#[test]
fn handle_valid_check_false_if_null() {
    let mem = unlinked();
    let handle = UHandle::<i32>::null();
    assert!(!handle.valid(&mem));
}

#[test]
fn handle_valid_check_is_valid_no_link() {
    let mut mem = unlinked();
    let handle = handle_to(&mut mem, 42);
    assert!(handle.valid(&mem));
}

#[test]
fn validity_with_host_checks() {
    let mut mem = linked();
    let null_inner = UHandle::<i32>::from_raw(mem.new_null_master_pointer());
    assert!(!null_inner.valid(&mem));
    assert!(!UHandle::<i32>::null().valid(&mem));
    assert!(!UHandle::<i32>::from_raw(0xDEAD).valid(&mem));
    let owned = OwnedUHandle::new(&mut mem, &7i32).unwrap();
    assert!(owned.handle().valid(&mem));
    let address = owned.handle().addr;
    owned.dispose(&mut mem).unwrap();
    assert!(!UHandle::<i32>::from_raw(address).valid(&mem));
}

#[test]
fn test_uptr() {
    let mut ptr = UPtr::new(42);
    assert_eq!(*ptr.as_ref().unwrap(), 42);
    *ptr.as_ref_mut().unwrap() = 43;
    assert_eq!(*ptr.as_ref().unwrap(), 43);
}

#[test]
fn test_uptr_as_ref() {
    let ptr = UPtr::new(42);
    assert_eq!(ptr.as_ref().unwrap(), &42);
}

#[test]
fn test_uptr_as_ref_mut() {
    let mut ptr = UPtr::new(42);
    assert_eq!(ptr.as_ref_mut().unwrap(), &mut 42);
}

#[test]
fn test_uptr_null() {
    let mut ptr: UPtr<i32> = UPtr::null();
    assert!(ptr.as_ref().is_err());
    assert!(ptr.as_ref_mut().is_err());
}

#[test]
fn resize_then_read_on_both_layouts() {
    for abi in [Abi::Packed32, Abi::Natural64] {
        let mut mem = HostMemory::new(abi, true, 1 << 16);
        let mut handle = UHandle::<u8>::from_raw(mem.new_handle(3));
        handle.resize(&mut mem, 10).unwrap();
        assert_eq!(handle.as_ref(&mem).unwrap().len(), 10);
        let bytes: Vec<u8> = (0..10).map(|i| i * 3 + 1).collect();
        handle.write_bytes(&mut mem, 0, &bytes).unwrap();
        assert_eq!(handle.as_ref(&mem).unwrap(), bytes.as_slice());
        handle.resize(&mut mem, 4).unwrap();
        assert_eq!(handle.as_ref(&mem).unwrap(), &bytes[..4]);
    }
}

#[test]
fn resize_errors() {
    let mut mem = unlinked();
    let mut handle = UHandle::<u8>::from_raw(mem.new_handle(3));
    assert!(matches!(
        handle.resize(&mut mem, 4),
        Err(LVInteropError::InternalError(InternalError::NoLabviewApi(_)))
    ));
    let mut mem = HostMemory::new(Abi::Natural64, true, 8);
    let mut handle = UHandle::<u8>::from_raw(mem.new_handle(3));
    assert_eq!(
        handle.resize(&mut mem, 9),
        Err(LVInteropError::LabviewMgError(MgError::MFullErr))
    );
    let mut null = UHandle::<u8>::null();
    assert_eq!(
        null.resize(&mut mem, 1),
        Err(LVInteropError::LabviewMgError(MgError::MgArgErr))
    );
}

#[test]
fn shallow_copy_into_null_allocates() {
    let mut mem = linked();
    let source = handle_to(&mut mem, 5);
    let mut target = UHandle::<i32>::null();
    source.clone_into_pointer(&mut mem, &mut target).unwrap();
    assert_ne!(target.addr, 0);
    assert_ne!(target.addr, source.addr);
    assert_eq!(target.read_value(&mem).unwrap(), 5);
    source.write_value(&mut mem, 6).unwrap();
    assert_eq!(target.read_value(&mem).unwrap(), 5);
    assert_eq!(source.read_value(&mem).unwrap(), 6);
    source.clone_into_pointer(&mut mem, &mut target).unwrap();
    assert_eq!(target.read_value(&mem).unwrap(), 6);
}

#[test]
fn owned_clone_and_dispose() {
    let mut mem = linked();
    let first = OwnedUHandle::new(&mut mem, &11i32).unwrap();
    let copy = first.try_clone(&mut mem).unwrap();
    assert_ne!(copy.handle().addr, first.handle().addr);
    assert_eq!(copy.handle().read_value(&mem).unwrap(), 11);
    first.handle().write_value(&mut mem, 12).unwrap();
    assert_eq!(copy.handle().read_value(&mem).unwrap(), 11);
    let borrowed = handle_to(&mut mem, 3);
    let promoted = borrowed.try_to_owned(&mut mem).unwrap();
    assert_eq!(promoted.handle().read_value(&mem).unwrap(), 3);
    assert_eq!(mem.disposals(), 0);
    first.dispose(&mut mem).unwrap();
    copy.dispose(&mut mem).unwrap();
    promoted.dispose(&mut mem).unwrap();
    assert_eq!(mem.disposals(), 3);
}

#[test]
fn owned_allocation_failures() {
    let mut mem = unlinked();
    assert!(matches!(
        OwnedUHandle::new(&mut mem, &1i32),
        Err(LVInteropError::InternalError(InternalError::NoLabviewApi(_)))
    ));
    let mut mem = HostMemory::new(Abi::Natural64, true, 2);
    assert!(matches!(
        OwnedUHandle::new(&mut mem, &1i32),
        Err(LVInteropError::InternalError(InternalError::HandleCreationFailed))
    ));
    let handle = UHandle::<i32>::null();
    assert!(matches!(
        handle.try_to_owned(&mut mem),
        Err(LVInteropError::InternalError(InternalError::InvalidHandle))
    ));
}

#[test]
fn disposed_handle_is_unknown() {
    let mut mem = linked();
    let owned = OwnedUHandle::new(&mut mem, &1i32).unwrap();
    let again = UHandle::<i32>::from_raw(owned.handle().addr).try_to_owned(&mut mem).unwrap();
    let first_address = owned.handle().addr;
    owned.dispose(&mut mem).unwrap();
    let stale = UHandle::<i32>::from_raw(first_address);
    assert!(stale.as_ref(&mem).is_err());
    again.dispose(&mut mem).unwrap();
    assert_eq!(mem.disposals(), 2);
    assert_eq!(mem.check_handle(first_address).0, 1);
}

#[test]
fn shallow_copy_shares_nested_handles() {
    let mut mem = linked();
    let nested = handle_to(&mut mem, 9);
    let outer = UHandle::<u64>::from_raw(mem.new_handle(8));
    outer.write_value(&mut mem, nested.addr as u64).unwrap();
    let mut copy = UHandle::<u64>::null();
    outer.clone_into_pointer(&mut mem, &mut copy).unwrap();
    let through_copy = UHandle::<i32>::from_raw(copy.read_value(&mem).unwrap() as usize);
    assert_eq!(through_copy.addr, nested.addr);
    nested.write_value(&mut mem, 10).unwrap();
    assert_eq!(through_copy.read_value(&mem).unwrap(), 10);
    outer.write_value(&mut mem, 0).unwrap();
    assert_eq!(copy.read_value(&mem).unwrap(), nested.addr as u64);
}

#[test]
fn unsized_initialisation_releases_on_failure() {
    let mut mem = linked();
    let failed = OwnedUHandle::<u8>::new_unsized(&mut mem, |m: &mut HostMemory, h: &mut UHandle<u8>| {
        h.resize(m, 3)?;
        Err(InternalError::Misc.into())
    });
    assert!(matches!(
        failed,
        Err(LVInteropError::InternalError(InternalError::Misc))
    ));
    assert_eq!(mem.disposals(), 1);
    assert!(!UHandle::<u8>::from_raw(1).valid(&mem));

    let made = OwnedUHandle::<u8>::new_unsized(&mut mem, |m: &mut HostMemory, h: &mut UHandle<u8>| {
        h.resize(m, 1)?;
        h.write_value(m, 200)
    })
    .unwrap();
    assert_eq!(made.handle().read_value(&mem), Ok(200));
    assert_eq!(mem.disposals(), 1);
    assert!(mem.memory_api().is_ok());
    assert!(unlinked().memory_api().is_err());
}
