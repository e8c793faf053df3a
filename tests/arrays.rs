use labview_interop::array::{LVArrayHandle, LVArrayOwned};
use labview_interop::dims::LVArrayDims;
use labview_interop::errors::{InternalError, LVInteropError};
use labview_interop::host::{Abi, HostMemory, MemoryManager};
use labview_interop::memory::UHandle;

#[test]
fn owned_array_end_to_end() {
    for abi in [Abi::Packed32, Abi::Natural64] {
        let mut mem = HostMemory::new(abi, true, 1 << 16);
        let mut owned = LVArrayOwned::<2, i32>::new_empty(&mut mem).unwrap();
        let mut handle = owned.handle_to_inner();
        assert_eq!(handle.element_count(&mem), Ok(0));
        handle.resize_array(&mut mem, [3, 3].into()).unwrap();
        assert_eq!(handle.dimension_sizes(&mem).unwrap().shape(), [3, 3]);
        assert_eq!(handle.element_count(&mem), Ok(9));
        for index in 0..9 {
            handle.set_value_unchecked(&mut mem, index, index as i32);
        }
        assert_eq!(handle.get_value_unchecked(&mem, 2 * 3 + 2), 8);
        let array = handle.read_array(&mem).unwrap();
        assert_eq!(array.data_as_slice(), &[0, 1, 2, 3, 4, 5, 6, 7, 8]);
        assert_eq!(array.dimension_sizes().rows(), 3);
        assert_eq!(array.element_count(), 9);
        assert_eq!(array.get_value_unchecked(8), 8);
        assert_eq!(mem.disposals(), 0);
        owned.dispose(&mut mem).unwrap();
        assert_eq!(mem.disposals(), 1);
    }
}

#[test]
fn array_layouts() {
    let mut packed = HostMemory::new(Abi::Packed32, true, 1 << 16);
    let mut handle = LVArrayHandle::<1, i64>::null();
    handle.resize_array(&mut packed, [2].into()).unwrap();
    assert_eq!(handle.as_ref(&packed).unwrap().len(), 4 + 16);

    let mut natural = HostMemory::new(Abi::Natural64, true, 1 << 16);
    let mut handle = LVArrayHandle::<1, i64>::null();
    handle.resize_array(&mut natural, [2].into()).unwrap();
    assert_eq!(handle.as_ref(&natural).unwrap().len(), 8 + 16);
    handle.set_value_unchecked(&mut natural, 1, -5);
    assert_eq!(handle.get_value_unchecked(&natural, 1), -5);
    assert_eq!(handle.get_value_unchecked(&natural, 0), 0);

    let mut handle = LVArrayHandle::<3, u8>::null();
    handle.resize_array(&mut natural, [1, 2, 3].into()).unwrap();
    assert_eq!(handle.as_ref(&natural).unwrap().len(), 12 + 6);
    assert_eq!(handle.element_count(&natural), Ok(6));
}

#[test]
fn array_errors() {
    let mut mem = HostMemory::new(Abi::Natural64, false, 1 << 16);
    let mut handle = LVArrayHandle::<1, u32>::from_raw(mem.new_handle(8));
    assert!(matches!(
        handle.resize_array(&mut mem, [1].into()),
        Err(LVInteropError::InternalError(InternalError::NoLabviewApi(_)))
    ));
    let short = LVArrayHandle::<2, u32>::from_raw(mem.new_handle(4));
    assert_eq!(
        short.dimension_sizes(&mem),
        Err(LVInteropError::InternalError(InternalError::InvalidHandle))
    );
    let null: UHandle<labview_interop::array::LVArray<1, u32>> = UHandle::null();
    assert!(null.element_count(&mem).is_err());
    let mut dims_only = LVArrayHandle::<1, u32>::from_raw(mem.new_handle(4));
    let header = LVArrayDims::<1>([5]);
    dims_only.write_bytes(&mut mem, 0, &5u32.to_le_bytes()).unwrap();
    assert_eq!(dims_only.dimension_sizes(&mem), Ok(header));
    assert!(dims_only.element_count(&mem).is_err());
    let _ = &mut dims_only;
}

#[test]
fn element_values_round_trip() {
    let mut mem = HostMemory::new(Abi::Natural64, true, 1 << 16);
    let mut handle = LVArrayHandle::<1, u64>::null();
    handle.resize_array(&mut mem, [3].into()).unwrap();
    handle.set_value_unchecked(&mut mem, 2, u64::MAX - 1);
    assert_eq!(handle.get_value_unchecked(&mem, 2), u64::MAX - 1);
    let value = UHandle::<u32>::from_raw(mem.new_handle(4));
    value.write_value(&mut mem, 0xdead_beef).unwrap();
    assert_eq!(value.as_ref(&mem).unwrap(), &[0xef, 0xbe, 0xad, 0xde]);
    assert_eq!(value.read_value(&mem), Ok(0xdead_beef));
}

#[test]
fn array_values_in_place() {
    let mut mem = HostMemory::new(Abi::Natural64, true, 1 << 16);
    let mut handle = LVArrayHandle::<1, i32>::null();
    handle.resize_array(&mut mem, [2].into()).unwrap();
    let mut array = handle.read_array(&mem).unwrap();
    array.data_as_slice_mut()[1] = 4;
    array.set_value_unchecked(0, 3);
    assert_eq!(array.data_as_slice(), &[3, 4]);
    assert_eq!(handle.get_value_unchecked(&mem, 1), 0);
}

#[test]
fn new_empty_outcomes() {
    let mut mem = HostMemory::new(Abi::Packed32, true, 4);
    assert_eq!(
        LVArrayOwned::<2, i16>::new_empty(&mut mem).err(),
        Some(LVInteropError::LabviewMgError(labview_interop::mg_error::MgError::MFullErr))
    );
    assert_eq!(mem.disposals(), 1);
    assert!(!UHandle::<u8>::from_raw(1).valid(&mem));

    let mut mem = HostMemory::new(Abi::Natural64, true, 64);
    let mut owned = LVArrayOwned::<1, i16>::new_empty(&mut mem).unwrap();
    let mut handle = owned.handle_to_inner();
    assert_eq!(handle.dimension_sizes(&mem).unwrap().shape(), [0]);
    handle.resize_array(&mut mem, [3].into()).unwrap();
    handle.set_value_unchecked(&mut mem, 2, -300);
    assert_eq!(handle.get_value_unchecked(&mem, 2), -300);
    assert_eq!(handle.as_ref(&mem).unwrap().len(), 4 + 6);

    let mut bytes = LVArrayHandle::<1, i8>::null();
    bytes.resize_array(&mut mem, [2].into()).unwrap();
    bytes.set_value_unchecked(&mut mem, 1, -1);
    assert_eq!(bytes.as_ref(&mem).unwrap()[5], 0xff);
    let mut words = LVArrayHandle::<1, u16>::null();
    words.resize_array(&mut mem, [1].into()).unwrap();
    words.set_value_unchecked(&mut mem, 0, 0x1234);
    assert_eq!(&words.as_ref(&mem).unwrap()[4..6], &[0x34, 0x12]);
}

#[test]
fn matching_dimensions_skip_the_host_on_natural_layout() {
    let mut mem = HostMemory::new(Abi::Natural64, false, 64);
    let mut handle = LVArrayHandle::<1, u8>::from_raw(mem.new_handle(5));
    handle.write_bytes(&mut mem, 0, &1u32.to_le_bytes()).unwrap();
    assert_eq!(handle.resize_array(&mut mem, [1].into()), Ok(()));
    assert!(handle.resize_array(&mut mem, [2].into()).is_err());
    let mut packed = HostMemory::new(Abi::Packed32, false, 64);
    let mut handle = LVArrayHandle::<1, u8>::from_raw(packed.new_handle(5));
    handle.write_bytes(&mut packed, 0, &1u32.to_le_bytes()).unwrap();
    assert!(handle.resize_array(&mut packed, [1].into()).is_err());
}
