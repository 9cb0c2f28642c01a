//! An ordered, append-only sequence of [`UberByte`] values.

use vstd::prelude::*;
use vstd::slice::slice_to_vec;
use vstd::string::StringSliceAdditionalSpecFns;

use std::str::FromStr;

use crate::uberbyte::count_ones;
use crate::{UberByte, UberByteError, ZERO_BIT_MASK};

verus! {

/// The byte values wrapped by a sequence of `UberByte`, in the same order.
pub open spec fn values_of(units: Seq<UberByte>) -> Seq<u8> {
    units.map(|i: int, unit: UberByte| unit.value)
}

/// The total population count of a sequence of byte values.
pub open spec fn total_set_bits(bytes: Seq<u8>) -> int
    decreases bytes.len(),
{
    if bytes.len() == 0 {
        0
    } else {
        total_set_bits(bytes.drop_last()) + count_ones(bytes.last())
    }
}

/// An ordered byte buffer composed of [`UberByte`] values.
///
/// A `ByteArray` is modelled as the sequence of wrapped byte values it holds,
/// in insertion order; duplicates and the empty sequence are valid. Every
/// growing operation comes both as a copy-producing function and as an
/// in-place one.
#[derive(Debug)]
pub struct ByteArray {
    data: Vec<UberByte>,
}

impl View for ByteArray {
    type V = Seq<u8>;

    closed spec fn view(&self) -> Seq<u8> {
        values_of(self.data@)
    }
}

impl ByteArray {
    /// Creates an empty byte array.
    pub fn new() -> (r: Self)
        ensures
            r@ == Seq::<u8>::empty(),
    {
        let data: Vec<UberByte> = Vec::new();
        proof {
            assert(values_of(data@) =~= Seq::<u8>::empty());
        }
        ByteArray { data }
    }

    /// Returns a copy of the array with `byte` appended; the original array
    /// is unchanged.
    pub fn add(&self, byte: UberByte) -> (r: Self)
        ensures
            r@ == self@.push(byte.value),
    {
        let mut copy = self.clone();
        copy.add_mut(byte);
        copy
    }

    /// Appends `byte` at the end of the array.
    pub fn add_mut(&mut self, byte: UberByte)
        ensures
            final(self)@ == old(self)@.push(byte.value),
    {
        self.data.push(byte);
        proof {
            assert(values_of(self.data@) =~= values_of(old(self).data@).push(byte.value));
        }
    }

    /// Appends every element of `bytes` at the end of the array, in order.
    pub fn add_range_mut(&mut self, bytes: Vec<UberByte>)
        ensures
            final(self)@ == old(self)@ + values_of(bytes@),
    {
        let mut i: usize = 0;
        while i < bytes.len()
            invariant
                i <= bytes.len(),
                self@ == old(self)@ + values_of(bytes@).take(i as int),
            decreases bytes.len() - i,
        {
            self.add_mut(bytes[i]);
            proof {
                assert((old(self)@ + values_of(bytes@).take(i as int)).push(bytes@[i as int].value)
                    =~= old(self)@ + values_of(bytes@).take(i as int + 1));
            }
            i = i + 1;
        }
        proof {
            assert(values_of(bytes@).take(bytes@.len() as int) =~= values_of(bytes@));
        }
    }

    /// Returns a copy of the array with every element of `bytes` appended in
    /// order; the original array is unchanged.
    pub fn add_range(&self, bytes: Vec<UberByte>) -> (r: Self)
        ensures
            r@ == self@ + values_of(bytes@),
    {
        let mut copy = self.clone();
        copy.add_range_mut(bytes);
        copy
    }

    /// Retrieves the byte at `index`, or nothing when the index is out of
    /// bounds; an out-of-range lookup is not an error.
    pub fn get(&self, index: usize) -> (r: Option<UberByte>)
        ensures
            match r {
                Some(byte) => index < self@.len() && byte.value == self@[index as int],
                None => index >= self@.len(),
            },
    {
        if index < self.data.len() {
            Some(self.data[index])
        } else {
            None
        }
    }

    /// Retrieves the byte at `index`; the index must be in bounds.
    ///
    /// This is the strict counterpart of [`ByteArray::get`]: an out-of-range
    /// index is a contract violation, not a recoverable absence.
    pub fn index(&self, index: usize) -> (r: UberByte)
        requires
            index < self@.len(),
        ensures
            r.value == self@[index as int],
    {
        self.data[index]
    }

    /// Returns the number of bytes stored in the array; 0 when it is empty.
    pub fn len(&self) -> (r: usize)
        ensures
            r == self@.len(),
    {
        self.data.len()
    }

    /// Appends all elements of `other` after the elements of the array.
    pub fn concat_mut(&mut self, other: ByteArray)
        ensures
            final(self)@ == old(self)@ + other@,
    {
        self.add_range_mut(other.data);
    }

    /// Returns the concatenation of the two arrays: the elements of `other`
    /// follow the elements of `self`; neither operand is changed.
    pub fn concat(&self, other: &ByteArray) -> (r: ByteArray)
        ensures
            r@ == self@ + other@,
    {
        let mut copy = self.clone();
        copy.concat_mut(other.clone());
        copy
    }

    /// Appends one `UberByte` for each byte of `buf`, in order.
    ///
    /// This is the write-sink entry point: the array accepts any raw byte
    /// buffer and grows by its length.
    pub fn append_bytes(&mut self, buf: &[u8])
        ensures
            final(self)@ == old(self)@ + buf@,
    {
        self.concat_mut(ByteArray::from_byte_slice(buf));
    }

    /// Builds an array from a raw byte buffer, wrapping each byte in order.
    pub fn from_bytes(bytes: Vec<u8>) -> (r: Self)
        ensures
            r@ == bytes@,
    {
        let mut data: Vec<UberByte> = Vec::new();
        let mut i: usize = 0;
        while i < bytes.len()
            invariant
                i <= bytes.len(),
                values_of(data@) == bytes@.take(i as int),
            decreases bytes.len() - i,
        {
            let ghost prev = data@;
            data.push(UberByte { value: bytes[i] });
            proof {
                assert(values_of(data@) =~= values_of(prev).push(bytes@[i as int]));
                assert(values_of(prev).push(bytes@[i as int]) =~= bytes@.take(i as int + 1));
            }
            i = i + 1;
        }
        proof {
            assert(bytes@.take(bytes@.len() as int) =~= bytes@);
        }
        ByteArray { data }
    }

    /// Builds an array from a borrowed byte buffer, wrapping each byte in
    /// order.
    pub fn from_byte_slice(bytes: &[u8]) -> (r: Self)
        ensures
            r@ == bytes@,
    {
        ByteArray::from_bytes(slice_to_vec(bytes))
    }

    /// Builds an array from a text string: each byte of the string's
    /// encoding becomes one element, in order. This construction is total.
    pub fn from_text(text: &str) -> (r: Self)
        ensures
            r@ == text.spec_bytes(),
    {
        ByteArray::from_byte_slice(text.as_bytes())
    }

    /// Returns the wrapped byte values as a plain vector, in order.
    ///
    /// This is the iteration surface of the array: it does not consume the
    /// array, so the result can be walked any number of times.
    pub fn to_byte_vec(&self) -> (r: Vec<u8>)
        ensures
            r@ == self@,
    {
        let mut bytes: Vec<u8> = Vec::new();
        let mut i: usize = 0;
        while i < self.data.len()
            invariant
                i <= self.data.len(),
                bytes@ == self@.take(i as int),
            decreases self.data.len() - i,
        {
            bytes.push(self.data[i].value);
            proof {
                assert(bytes@ =~= self@.take(i as int + 1));
            }
            i = i + 1;
        }
        proof {
            assert(self@.take(self.data@.len() as int) =~= self@);
        }
        bytes
    }

    /// Appends a parity byte when the total number of set bits across all
    /// elements is odd, so that the total becomes even.
    ///
    /// Returns whether a byte was added: `true` for an odd population count,
    /// in which case one element with only bit 0 set is appended and the
    /// array grows by exactly one; `false` for an even count, in which case
    /// the array is unchanged.
    pub fn add_parity_byte(&mut self) -> (added: bool)
        ensures
            added == (total_set_bits(old(self)@) % 2 != 0),
            added ==> final(self)@ == old(self)@.push(ZERO_BIT_MASK),
            !added ==> final(self)@ == old(self)@,
    {
        let mut parity: u8 = 0;
        let mut i: usize = 0;
        while i < self.data.len()
            invariant
                i <= self.data.len(),
                self == old(self),
                parity as int == total_set_bits(self@.take(i as int)) % 2,
            decreases self.data.len() - i,
        {
            let count = self.data[i].count_set_bits();
            proof {
                let prefix = self@.take(i as int + 1);
                assert(prefix.drop_last() =~= self@.take(i as int));
                vstd::arithmetic::div_mod::lemma_add_mod_noop(
                    total_set_bits(self@.take(i as int)),
                    count as int,
                    2,
                );
            }
            parity = (parity + count) % 2;
            i = i + 1;
        }
        proof {
            assert(self@.take(self.data@.len() as int) =~= self@);
        }
        if parity % 2 == 0 {
            false
        } else {
            self.add_mut(UberByte { value: ZERO_BIT_MASK });
            true
        }
    }
}

impl Clone for ByteArray {
    /// Returns an array holding the same byte values in the same order.
    fn clone(&self) -> (r: Self)
        ensures
            r@ == self@,
    {
        ByteArray { data: slice_to_vec(self.data.as_slice()) }
    }
}

impl Default for ByteArray {
    /// The default array is empty.
    fn default() -> (r: Self)
        ensures
            r@ == Seq::<u8>::empty(),
    {
        ByteArray::new()
    }
}

impl FromStr for ByteArray {
    type Err = UberByteError;

    /// Builds an array from a text string as [`ByteArray::from_text`] does.
    ///
    /// The fallible signature exists only for interface symmetry: this
    /// construction never fails, so the result is always `Ok`.
    fn from_str(text: &str) -> Result<Self, Self::Err> {
        Ok(ByteArray::from_text(text))
    }
}

} // verus!
