use std::str::FromStr;

use uberbyte::{ByteArray, UberByte, UberByteError, ZERO_BIT_MASK};

#[test]
fn set_then_are_set_on_samples() {
    let masks = [0b_0000_0001u8, 0b_1000_0000, 0b_0101_0101, 0b_1111_1111];
    let values = [0u8, 1, 42, 128, 255];
    for mask in masks {
        for value in values {
            assert!(UberByte::from(value).set(mask).are_set(mask));
        }
    }
}

#[test]
fn clear_then_are_set_is_false_on_samples() {
    let masks = [0u8, 0b_0000_0001, 0b_1000_0000, 0b_0101_0101, 0b_1111_1111];
    let values = [0u8, 1, 42, 128, 255];
    for mask in masks {
        for value in values {
            assert!(!UberByte::from(value).clear(mask).are_set(mask));
        }
    }
}

#[test]
fn double_flip_is_identity_on_samples() {
    let values = [0u8, 1, 42, 127, 128, 254, 255];
    for value in values {
        let byte = UberByte::from(value);
        assert_eq!(byte, byte.flip().flip());
    }
}

#[test]
fn in_place_variants_match_copying_ones() {
    let byte = UberByte::from(0b_0011_0101);
    let mask = 0b_0110_0000u8;

    let mut set_in_place = byte;
    set_in_place.set_mut(mask);
    assert_eq!(byte.set(mask), set_in_place);

    let mut cleared_in_place = byte;
    cleared_in_place.clear_mut(mask);
    assert_eq!(byte.clear(mask), cleared_in_place);

    let mut flipped_in_place = byte;
    flipped_in_place.flip_mut();
    assert_eq!(byte.flip(), flipped_in_place);

    let mut added_in_place = byte;
    added_in_place.add_mut(UberByte::from(200));
    assert_eq!(byte.add(UberByte::from(200)), added_in_place);
}

#[test]
fn shift_past_byte_width_is_zero() {
    let byte = UberByte::from(0b_1010_1010);
    let wide = UberByte::from(8);

    assert_eq!(UberByte::min_value(), byte.shl(wide));
    assert_eq!(UberByte::min_value(), byte.shr(wide));
    assert_eq!(UberByte::min_value(), byte.shl(UberByte::max_value()));
    assert_eq!(UberByte::min_value(), byte.shr(UberByte::max_value()));
}

#[test]
fn default_is_minimum() {
    assert_eq!(UberByte::min_value(), UberByte::default());
    assert_eq!(0, UberByte::default().value);
}

#[test]
fn from_text_round_trip() {
    let text = "tattoo";
    let array = ByteArray::from_text(text);

    assert_eq!(6, array.len());
    assert_eq!(UberByte::from(b't'), array.index(0));
    assert_eq!(UberByte::from(b'a'), array.index(1));
    assert_eq!(UberByte::from(b't'), array.index(2));
    assert_eq!(UberByte::from(b't'), array.index(3));
    assert_eq!(UberByte::from(b'o'), array.index(4));
    assert_eq!(UberByte::from(b'o'), array.index(5));
}

#[test]
fn from_str_never_fails() {
    let parsed: Result<ByteArray, UberByteError> = ByteArray::from_str("");
    assert_eq!(0, parsed.unwrap().len());
}

#[test]
fn parity_byte_added_when_count_is_odd() {
    // 0b_0001_0110 has three set bits: the total is odd.
    let mut array = ByteArray::from_bytes(vec![0b_0001_0110]);

    let added = array.add_parity_byte();

    assert!(added);
    assert_eq!(2, array.len());
    assert_eq!(UberByte::from(ZERO_BIT_MASK), array.index(1));
}

#[test]
fn parity_byte_not_added_when_count_is_even() {
    // 0b_0001_0110 and 0b_0000_0111 hold six set bits in total.
    let mut array = ByteArray::from_bytes(vec![0b_0001_0110, 0b_0000_0111]);

    let added = array.add_parity_byte();

    assert!(!added);
    assert_eq!(2, array.len());
}

#[test]
fn parity_of_empty_array_adds_nothing() {
    let mut array = ByteArray::new();

    assert!(!array.add_parity_byte());
    assert_eq!(0, array.len());
}

#[test]
fn append_bytes_grows_by_buffer_length() {
    let mut array = ByteArray::from_bytes(vec![1, 2]);

    array.append_bytes(&[3, 4, 5]);

    assert_eq!(5, array.len());
    assert_eq!(vec![1, 2, 3, 4, 5], array.to_byte_vec());
}

#[test]
fn concat_appends_right_operand_after_left() {
    let left = ByteArray::from_bytes(vec![1, 2]);
    let right = ByteArray::from_bytes(vec![3, 4]);

    let joined = left.concat(&right);

    assert_eq!(vec![1, 2, 3, 4], joined.to_byte_vec());
    assert_eq!(2, left.len());
    assert_eq!(2, right.len());

    let mut in_place = left;
    in_place.concat_mut(right);
    assert_eq!(vec![1, 2, 3, 4], in_place.to_byte_vec());
}

#[test]
fn from_byte_slice_preserves_order() {
    let array = ByteArray::from_byte_slice(&[9, 8, 7]);

    assert_eq!(vec![9, 8, 7], array.to_byte_vec());
}
