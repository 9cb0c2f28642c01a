//! Fallible construction of [`UberByte`] from wider integer types.
//!
//! An unsigned source fails with [`UberByteError::ValueOverflow`] when it
//! exceeds the byte range. A signed source fails with
//! [`UberByteError::ValueUnderflow`] when it is zero or negative — zero is
//! deliberately rejected on the signed path — and with
//! [`UberByteError::ValueOverflow`] when it exceeds the byte range.

use vstd::prelude::*;

use crate::{UberByte, UberByteError};

verus! {

impl UberByte {
    /// Converts a `u16` to a byte; values past the byte range overflow.
    pub fn try_from_u16(value: u16) -> (r: Result<UberByte, UberByteError>)
        ensures
            value <= 255 ==> (r matches Ok(b) && b.value == value as u8),
            value > 255 ==> (r matches Err(e) && e == UberByteError::ValueOverflow),
    {
        if value <= 255 {
            Ok(UberByte { value: value as u8 })
        } else {
            Err(UberByteError::ValueOverflow)
        }
    }

    /// Converts a `u32` to a byte; values past the byte range overflow.
    pub fn try_from_u32(value: u32) -> (r: Result<UberByte, UberByteError>)
        ensures
            value <= 255 ==> (r matches Ok(b) && b.value == value as u8),
            value > 255 ==> (r matches Err(e) && e == UberByteError::ValueOverflow),
    {
        if value <= 255 {
            Ok(UberByte { value: value as u8 })
        } else {
            Err(UberByteError::ValueOverflow)
        }
    }

    /// Converts a `u64` to a byte; values past the byte range overflow.
    pub fn try_from_u64(value: u64) -> (r: Result<UberByte, UberByteError>)
        ensures
            value <= 255 ==> (r matches Ok(b) && b.value == value as u8),
            value > 255 ==> (r matches Err(e) && e == UberByteError::ValueOverflow),
    {
        if value <= 255 {
            Ok(UberByte { value: value as u8 })
        } else {
            Err(UberByteError::ValueOverflow)
        }
    }

    /// Converts a `u128` to a byte; values past the byte range overflow.
    pub fn try_from_u128(value: u128) -> (r: Result<UberByte, UberByteError>)
        ensures
            value <= 255 ==> (r matches Ok(b) && b.value == value as u8),
            value > 255 ==> (r matches Err(e) && e == UberByteError::ValueOverflow),
    {
        if value <= 255 {
            Ok(UberByte { value: value as u8 })
        } else {
            Err(UberByteError::ValueOverflow)
        }
    }

    /// Converts a `usize` to a byte; values past the byte range overflow.
    pub fn try_from_usize(value: usize) -> (r: Result<UberByte, UberByteError>)
        ensures
            value <= 255 ==> (r matches Ok(b) && b.value == value as u8),
            value > 255 ==> (r matches Err(e) && e == UberByteError::ValueOverflow),
    {
        if value <= 255 {
            Ok(UberByte { value: value as u8 })
        } else {
            Err(UberByteError::ValueOverflow)
        }
    }

    /// Converts an `i8` to a byte; zero and negative values underflow.
    pub fn try_from_i8(value: i8) -> (r: Result<UberByte, UberByteError>)
        ensures
            value <= 0 ==> (r matches Err(e) && e == UberByteError::ValueUnderflow),
            value > 0 ==> (r matches Ok(b) && b.value == value as u8),
    {
        if value <= 0 {
            Err(UberByteError::ValueUnderflow)
        } else {
            Ok(UberByte { value: value as u8 })
        }
    }

    /// Converts an `i16` to a byte; zero and negative values underflow and
    /// values past the byte range overflow.
    pub fn try_from_i16(value: i16) -> (r: Result<UberByte, UberByteError>)
        ensures
            value <= 0 ==> (r matches Err(e) && e == UberByteError::ValueUnderflow),
            0 < value <= 255 ==> (r matches Ok(b) && b.value == value as u8),
            value > 255 ==> (r matches Err(e) && e == UberByteError::ValueOverflow),
    {
        if value <= 0 {
            Err(UberByteError::ValueUnderflow)
        } else if value <= 255 {
            Ok(UberByte { value: value as u8 })
        } else {
            Err(UberByteError::ValueOverflow)
        }
    }

    /// Converts an `i32` to a byte; zero and negative values underflow and
    /// values past the byte range overflow.
    pub fn try_from_i32(value: i32) -> (r: Result<UberByte, UberByteError>)
        ensures
            value <= 0 ==> (r matches Err(e) && e == UberByteError::ValueUnderflow),
            0 < value <= 255 ==> (r matches Ok(b) && b.value == value as u8),
            value > 255 ==> (r matches Err(e) && e == UberByteError::ValueOverflow),
    {
        if value <= 0 {
            Err(UberByteError::ValueUnderflow)
        } else if value <= 255 {
            Ok(UberByte { value: value as u8 })
        } else {
            Err(UberByteError::ValueOverflow)
        }
    }

    /// Converts an `i64` to a byte; zero and negative values underflow and
    /// values past the byte range overflow.
    pub fn try_from_i64(value: i64) -> (r: Result<UberByte, UberByteError>)
        ensures
            value <= 0 ==> (r matches Err(e) && e == UberByteError::ValueUnderflow),
            0 < value <= 255 ==> (r matches Ok(b) && b.value == value as u8),
            value > 255 ==> (r matches Err(e) && e == UberByteError::ValueOverflow),
    {
        if value <= 0 {
            Err(UberByteError::ValueUnderflow)
        } else if value <= 255 {
            Ok(UberByte { value: value as u8 })
        } else {
            Err(UberByteError::ValueOverflow)
        }
    }

    /// Converts an `i128` to a byte; zero and negative values underflow and
    /// values past the byte range overflow.
    pub fn try_from_i128(value: i128) -> (r: Result<UberByte, UberByteError>)
        ensures
            value <= 0 ==> (r matches Err(e) && e == UberByteError::ValueUnderflow),
            0 < value <= 255 ==> (r matches Ok(b) && b.value == value as u8),
            value > 255 ==> (r matches Err(e) && e == UberByteError::ValueOverflow),
    {
        if value <= 0 {
            Err(UberByteError::ValueUnderflow)
        } else if value <= 255 {
            Ok(UberByte { value: value as u8 })
        } else {
            Err(UberByteError::ValueOverflow)
        }
    }

    /// Converts an `isize` to a byte; zero and negative values underflow and
    /// values past the byte range overflow.
    pub fn try_from_isize(value: isize) -> (r: Result<UberByte, UberByteError>)
        ensures
            value <= 0 ==> (r matches Err(e) && e == UberByteError::ValueUnderflow),
            0 < value <= 255 ==> (r matches Ok(b) && b.value == value as u8),
            value > 255 ==> (r matches Err(e) && e == UberByteError::ValueOverflow),
    {
        if value <= 0 {
            Err(UberByteError::ValueUnderflow)
        } else if value <= 255 {
            Ok(UberByte { value: value as u8 })
        } else {
            Err(UberByteError::ValueOverflow)
        }
    }
}

} // verus!
