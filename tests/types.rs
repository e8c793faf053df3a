use labview_interop::boolean::LVBool;
use labview_interop::dims::LVArrayDims;
use labview_interop::errors::{InternalError, LVInteropError};
use labview_interop::timestamp::LVTime;

#[test]
fn test_boolean_false_to_lv_bool() {
    let value: LVBool = false.into();
    assert_eq!(value, LVBool(0))
}

#[test]
fn test_boolean_true_to_lv_bool() {
    let value: LVBool = true.into();
    assert_eq!(value, LVBool(1))
}

#[test]
fn test_boolean_lvfalse_to_bool() {
    let value: bool = LVBool(0).into();
    assert!(!value)
}

#[test]
fn test_boolean_lvtrue_to_bool() {
    let value: bool = LVBool(1).into();
    assert!(value)
}

#[test]
fn test_any_non_zero_to_bool() {
    let value: bool = LVBool(23).into();
    assert!(value)
}

#[test]
fn lv_bool_in_if_statement() {
    let true_bool: bool = LVBool(1).into();
    let false_bool: bool = LVBool(0).into();
    assert!(true_bool);
    assert!(!false_bool);
}

#[test]
fn new_dims_empty() {
    let ref_dims = LVArrayDims::<3>([0, 0, 0]);
    let dims = LVArrayDims::<3>::new_empty();
    assert_eq!(dims, ref_dims);
    assert_eq!(dims.element_count(), 0);
}

#[test]
fn dimension_element_count() {
    let dims = LVArrayDims::<3>([2, 3, 4]);
    assert_eq!(dims.element_count(), 24);

    let dims = LVArrayDims::<2>([2, 3]);
    assert_eq!(dims.element_count(), 6);

    let dims = LVArrayDims::<1>([2]);
    assert_eq!(dims.element_count(), 2);
}

#[test]
fn zero_dimension_count_is_one() {
    let dims = LVArrayDims::<0>([]);
    assert_eq!(dims.element_count(), 1);
    let dims = LVArrayDims::<3>([i32::MAX, i32::MAX, 0]);
    assert_eq!(dims.element_count(), 0);
}

#[test]
fn test_dim_equality() {
    let dims1 = LVArrayDims::<3>([2, 3, 4]);
    let dims2 = LVArrayDims::<3>([2, 3, 4]);
    assert_eq!(dims1, dims2);
}

#[test]
fn test_dims_from_usize_ok() {
    let dims = &[1usize, 2usize];
    let lvdims: LVArrayDims<2> = LVArrayDims::from_sizes(dims).unwrap();
    assert_eq!(lvdims, [1i32, 2].into())
}

#[test]
fn test_dims_from_usize_out_of_range() {
    let dims = &[1usize, i32::MAX as usize + 1];
    let result: Result<LVArrayDims<2>, _> = LVArrayDims::from_sizes(dims);

    let expected_err: Result<LVArrayDims<2>, _> = Err(LVInteropError::from(
        InternalError::ArrayDimensionsOutOfRange,
    ));
    assert_eq!(result, expected_err);
}

#[test]
fn dims_from_slice_arity() {
    let sizes: &[usize] = &[1, 2];
    let dims: LVArrayDims<2> = LVArrayDims::from_size_slice(sizes).unwrap();
    assert_eq!(dims.shape(), [1, 2]);
    let sizes: &[usize] = &[1, 2, 3];
    let result: Result<LVArrayDims<2>, _> = LVArrayDims::from_size_slice(sizes);
    assert_eq!(
        result,
        Err(LVInteropError::from(InternalError::ArrayDimensionMismatch))
    );
    let sizes: &[usize] = &[1, 1 << 31];
    let result: Result<LVArrayDims<2>, _> = LVArrayDims::from_size_slice(sizes);
    assert_eq!(
        result,
        Err(LVInteropError::from(InternalError::ArrayDimensionsOutOfRange))
    );
    let sizes: &[usize] = &[1, i32::MAX as usize];
    let dims: LVArrayDims<2> = LVArrayDims::from_size_slice(sizes).unwrap();
    assert_eq!(dims.sizes(), [1, i32::MAX as usize]);
}

#[test]
fn test_access_dims() {
    let dims = LVArrayDims::<2>([2, 3]);
    assert_eq!(dims.shape(), [2, 3]);
}

#[test]
fn test_2d_dim_names() {
    let dims = LVArrayDims::<2>([2, 3]);
    assert_eq!(dims.rows(), 2);
    assert_eq!(dims.columns(), 3);
}

#[test]
fn test_3d_dim_names() {
    let dims = LVArrayDims::<3>([2, 3, 4]);
    assert_eq!(dims.rows(), 3);
    assert_eq!(dims.columns(), 4);
    assert_eq!(dims.pages(), 2);
}

#[test]
fn timestamp_test_to_from_parts() {
    let time = LVTime::from_parts(20, 0x8000_0000_0000_0000);
    assert_eq!((20, 0x8000_0000_0000_0000), time.to_parts());
    assert_eq!(time.seconds(), 20);
}

#[test]
fn timestamp_test_to_from_le_bytes() {
    let time = LVTime::from_parts(20, 0x8000_0000_0000_0000);
    let bytes = time.to_le_bytes();
    assert_eq!(
        bytes,
        [00, 00, 00, 00, 00, 00, 00, 0x80, 0x14, 00, 00, 00, 00, 00, 00, 00]
    );
    assert_eq!(time, LVTime::from_le_bytes(bytes));
}

#[test]
fn timestamp_test_to_from_be_bytes() {
    let time = LVTime::from_parts(20, 0x8000_0000_0000_0000);
    let bytes = time.to_be_bytes();
    assert_eq!(
        bytes,
        [00, 00, 00, 00, 00, 00, 00, 0x14, 0x80, 00, 00, 00, 00, 00, 00, 00]
    );
    assert_eq!(time, LVTime::from_be_bytes(bytes));
}

#[test]
fn negative_seconds_bytes_round_trip() {
    let time = LVTime::from_parts(-2, 1);
    let le = time.to_le_bytes();
    assert_eq!(le[8..16], [0xfe, 0xff, 0xff, 0xff, 0xff, 0xff, 0xff, 0xff]);
    assert_eq!(LVTime::from_le_bytes(le), time);
    assert_eq!(LVTime::from_be_bytes(time.to_be_bytes()), time);
}

#[test]
fn test_to_from_parts() {
    let time = LVTime::from_parts(20, 0x8000_0000_0000_0000);
    assert_eq!((20, 0x8000_0000_0000_0000), time.to_parts());
    assert_eq!(time.seconds(), 20);
}

#[test]
fn test_to_from_le_bytes() {
    let time = LVTime::from_parts(20, 0x8000_0000_0000_0000);
    let bytes = time.to_le_bytes();
    assert_eq!(
        bytes,
        [00, 00, 00, 00, 00, 00, 00, 0x80, 0x14, 00, 00, 00, 00, 00, 00, 00]
    );
    assert_eq!(time, LVTime::from_le_bytes(bytes));
}

#[test]
fn test_to_from_be_bytes() {
    let time = LVTime::from_parts(20, 0x8000_0000_0000_0000);
    let bytes = time.to_be_bytes();
    assert_eq!(
        bytes,
        [00, 00, 00, 00, 00, 00, 00, 0x14, 0x80, 00, 00, 00, 00, 00, 00, 00]
    );
    assert_eq!(time, LVTime::from_be_bytes(bytes));
}
