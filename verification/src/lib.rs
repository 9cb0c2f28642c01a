//! Bit manipulation for a single byte, made simple.
//!
//! The crate is built around [`UberByte`], a wrapper over a `u8` that offers
//! mask-based bit tests, set/clear/flip operations (each in a copy-producing
//! and an in-place form), saturating addition, bitwise and shift operations,
//! fallible conversions from wider integer types, and textual renderings in
//! the usual radixes. [`ByteArray`] composes `UberByte` values into an
//! ordered, append-only byte buffer.
//!
//! Every operation carries a contract stating exactly what it computes, and
//! the implementations are verified against those contracts.

use vstd::prelude::*;

mod byte_array;
mod formatters;
mod try_from;
mod uberbyte;

pub use crate::byte_array::ByteArray;
pub use crate::uberbyte::UberByte;

verus! {

/// Mask selecting bit 0, the least significant bit.
/// bin: 0000 0001
pub const ZERO_BIT_MASK: u8 = 0b_0000_0001;
/// Mask selecting bit 1.
/// bin: 0000 0010
pub const FIRST_BIT_MASK: u8 = 0b_0000_0010;
/// Mask selecting bit 2.
/// bin: 0000 0100
pub const SECOND_BIT_MASK: u8 = 0b_0000_0100;
/// Mask selecting bit 3.
/// bin: 0000 1000
pub const THIRD_BIT_MASK: u8 = 0b_0000_1000;
/// Mask selecting bit 4.
/// bin: 0001 0000
pub const FOURTH_BIT_MASK: u8 = 0b_0001_0000;
/// Mask selecting bit 5.
/// bin: 0010 0000
pub const FIFTH_BIT_MASK: u8 = 0b_0010_0000;
/// Mask selecting bit 6.
/// bin: 0100 0000
pub const SIXTH_BIT_MASK: u8 = 0b_0100_0000;
/// Mask selecting bit 7, the most significant bit.
/// bin: 1000 0000
pub const SEVENTH_BIT_MASK: u8 = 0b_1000_0000;
/// Mask selecting no bit at all.
/// bin: 0000 0000
pub const NONE_BIT_MASK: u8 = 0b_0000_0000;
/// Mask selecting every bit.
/// bin: 1111 1111
pub const ALL_BIT_MASK: u8 = 0b_1111_1111;

/// The failures that byte construction and byte-array access can report.
#[derive(Debug, Clone, Copy, PartialEq, Eq, Structural)]
pub enum UberByteError {
    /// The provided value exceeds the range of a single byte.
    ValueOverflow,
    /// The provided value falls below the range of a single byte.
    ValueUnderflow,
    /// The desired index exceeds the length of the array.
    IndexOutOfRange,
}

} // verus!
