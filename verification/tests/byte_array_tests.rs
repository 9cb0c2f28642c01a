use std::str::FromStr;

use uberbyte::{ByteArray, UberByte, UberByteError};

#[test]
fn from_str() {
    let foo: Result<ByteArray, UberByteError> = ByteArray::from_str("tattoo");

    let byte_array: ByteArray = foo.unwrap();

    assert_eq!(6, byte_array.len());
}

#[test]
fn indexer() {
    let vector = vec![1, 2, 3, 4, 5];
    let test_array: ByteArray = ByteArray::from_bytes(vector);

    assert_eq!(UberByte::from(1), test_array.index(0));
}

#[test]
#[should_panic]
fn indexer_out_of_range() {
    ByteArray::default().index(usize::MAX);
}

#[test]
fn get() {
    let vector = vec![1, 2, 3, 4, 5];
    let test_array: ByteArray = ByteArray::from_bytes(vector);

    assert_eq!(UberByte::from(1), test_array.get(0).unwrap());
    assert_eq!(UberByte::from(2), test_array.get(1).unwrap());
    assert_eq!(UberByte::from(3), test_array.get(2).unwrap());
    assert_eq!(UberByte::from(4), test_array.get(3).unwrap());
    assert_eq!(UberByte::from(5), test_array.get(4).unwrap());
}

#[test]
fn get_index_out_of_range() {
    assert!(ByteArray::default().get(usize::MAX).is_none());
}

#[test]
fn len() {
    let mut test_array = ByteArray::default();

    assert_eq!(0, test_array.len());

    test_array.add_mut(UberByte::from(15));

    assert_eq!(1, test_array.len());
}

#[test]
fn byte_array_add() {
    let test_array = ByteArray::default();

    let new_test_array = test_array.add(UberByte::from(12));

    assert_eq!(0, test_array.len());
    assert_eq!(1, new_test_array.len());
}

#[test]
fn add_mut() {
    let mut test_array = ByteArray::default();

    test_array.add_mut(UberByte::from(12));

    assert_eq!(1, test_array.len());
}

#[test]
fn add_range() {
    let test_array = ByteArray::default();

    let result_array = test_array.add_range(vec![UberByte::from(12), UberByte::from(13)]);

    assert_eq!(2, result_array.len());
    assert_eq!(0, test_array.len());
}

#[test]
fn add_range_mut() {
    let mut test_array = ByteArray::default();

    test_array.add_range_mut(vec![UberByte::from(12), UberByte::from(13)]);

    assert_eq!(2, test_array.len());
}
