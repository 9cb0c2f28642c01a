//! The byte wrapper at the core of the crate.

use vstd::prelude::*;

use crate::{
    ALL_BIT_MASK, FIFTH_BIT_MASK, FIRST_BIT_MASK, FOURTH_BIT_MASK, NONE_BIT_MASK, SECOND_BIT_MASK,
    SEVENTH_BIT_MASK, SIXTH_BIT_MASK, THIRD_BIT_MASK, ZERO_BIT_MASK,
};

verus! {

/// The number of bits set to 1 in a byte value: its population count.
pub open spec fn count_ones(v: u8) -> int {
    (if v & ZERO_BIT_MASK != 0 { 1int } else { 0int })
    + (if v & FIRST_BIT_MASK != 0 { 1int } else { 0int })
    + (if v & SECOND_BIT_MASK != 0 { 1int } else { 0int })
    + (if v & THIRD_BIT_MASK != 0 { 1int } else { 0int })
    + (if v & FOURTH_BIT_MASK != 0 { 1int } else { 0int })
    + (if v & FIFTH_BIT_MASK != 0 { 1int } else { 0int })
    + (if v & SIXTH_BIT_MASK != 0 { 1int } else { 0int })
    + (if v & SEVENTH_BIT_MASK != 0 { 1int } else { 0int })
}

/// A wrapper over a `u8` that offers simple, fully specified bit manipulation.
///
/// The wrapped value is never out of the byte range: arithmetic saturates at
/// [`UberByte::max_value`] instead of wrapping or failing.
#[derive(Debug, Clone, Copy, PartialEq, Eq, PartialOrd, Ord, Structural)]
pub struct UberByte {
    /// The wrapped byte value.
    pub value: u8,
}

impl UberByte {
    /// The maximal value an `UberByte` can hold: all bits are set.
    pub open spec fn spec_max() -> UberByte {
        UberByte { value: ALL_BIT_MASK }
    }

    /// The minimal value an `UberByte` can hold: no bit is set.
    pub open spec fn spec_min() -> UberByte {
        UberByte { value: NONE_BIT_MASK }
    }

    /// Returns the maximal possible `UberByte`: all bits are set to 1.
    #[verifier::when_used_as_spec(spec_max)]
    pub fn max_value() -> (r: UberByte)
        ensures
            r == UberByte::spec_max(),
    {
        UberByte { value: ALL_BIT_MASK }
    }

    /// Returns the minimal possible `UberByte`: all bits are set to 0.
    #[verifier::when_used_as_spec(spec_min)]
    pub fn min_value() -> (r: UberByte)
        ensures
            r == UberByte::spec_min(),
    {
        UberByte { value: NONE_BIT_MASK }
    }

    /// The value with every bit of `bit_mask` forced to 1, other bits kept.
    pub open spec fn spec_set(&self, bit_mask: u8) -> UberByte {
        UberByte { value: self.value | bit_mask }
    }

    /// The value with every bit of `bit_mask` forced to 0, other bits kept.
    pub open spec fn spec_clear(&self, bit_mask: u8) -> UberByte {
        UberByte { value: self.value & !bit_mask }
    }

    /// The bitwise complement of the value.
    pub open spec fn spec_flip(&self) -> UberByte {
        UberByte { value: !self.value }
    }

    /// Whether at least one bit selected by `bit_mask` is set.
    pub open spec fn spec_are_set(&self, bit_mask: u8) -> bool {
        self.value & bit_mask != 0
    }

    /// Whether the bit at `bit_index` is set; indexes past the byte are
    /// never set.
    pub open spec fn spec_is_bit_set(&self, bit_index: usize) -> bool {
        if bit_index == 0 {
            self.spec_are_set(ZERO_BIT_MASK)
        } else if bit_index == 1 {
            self.spec_are_set(FIRST_BIT_MASK)
        } else if bit_index == 2 {
            self.spec_are_set(SECOND_BIT_MASK)
        } else if bit_index == 3 {
            self.spec_are_set(THIRD_BIT_MASK)
        } else if bit_index == 4 {
            self.spec_are_set(FOURTH_BIT_MASK)
        } else if bit_index == 5 {
            self.spec_are_set(FIFTH_BIT_MASK)
        } else if bit_index == 6 {
            self.spec_are_set(SIXTH_BIT_MASK)
        } else if bit_index == 7 {
            self.spec_are_set(SEVENTH_BIT_MASK)
        } else {
            false
        }
    }

    /// The number of bits set to 1, between 0 and 8.
    pub open spec fn spec_count_set_bits(&self) -> int {
        count_ones(self.value)
    }

    /// The saturating sum: clamped to [`UberByte::max_value`] when the numeric sum
    /// exceeds the byte range.
    pub open spec fn spec_add(self, rhs: UberByte) -> UberByte {
        if self.value + rhs.value > ALL_BIT_MASK {
            UberByte { value: ALL_BIT_MASK }
        } else {
            UberByte { value: (self.value + rhs.value) as u8 }
        }
    }

    /// Returns a new instance with the bits selected by `bit_mask` set to 1
    /// and all other bits unchanged.
    #[verifier::when_used_as_spec(spec_set)]
    pub fn set(&self, bit_mask: u8) -> (r: UberByte)
        ensures
            r == self.spec_set(bit_mask),
    {
        let masked_value = (self.value ^ bit_mask) | self.value;
        proof {
            let w = self.value;
            assert((w ^ bit_mask) | w == w | bit_mask) by (bit_vector);
        }
        UberByte { value: masked_value }
    }

    /// Sets the bits selected by `bit_mask` to 1 in place.
    pub fn set_mut(&mut self, bit_mask: u8)
        ensures
            *final(self) == old(self).spec_set(bit_mask),
    {
        proof {
            let w = self.value;
            assert((w ^ bit_mask) | w == w | bit_mask) by (bit_vector);
        }
        self.value = (self.value ^ bit_mask) | self.value;
    }

    /// Returns a new instance with the bits selected by `bit_mask` cleared
    /// to 0 and all other bits unchanged.
    #[verifier::when_used_as_spec(spec_clear)]
    pub fn clear(&self, bit_mask: u8) -> (r: UberByte)
        ensures
            r == self.spec_clear(bit_mask),
    {
        let masked_value = (self.value ^ bit_mask) & self.value;
        proof {
            let w = self.value;
            assert((w ^ bit_mask) & w == w & !bit_mask) by (bit_vector);
        }
        UberByte { value: masked_value }
    }

    /// Clears the bits selected by `bit_mask` to 0 in place.
    pub fn clear_mut(&mut self, bit_mask: u8)
        ensures
            *final(self) == old(self).spec_clear(bit_mask),
    {
        proof {
            let w = self.value;
            assert((w ^ bit_mask) & w == w & !bit_mask) by (bit_vector);
        }
        self.value = (self.value ^ bit_mask) & self.value;
    }

    /// Returns a new instance with every bit flipped: each 0 becomes 1 and
    /// each 1 becomes 0.
    #[verifier::when_used_as_spec(spec_flip)]
    pub fn flip(&self) -> (r: UberByte)
        ensures
            r == self.spec_flip(),
    {
        UberByte { value: !self.value }
    }

    /// Flips every bit in place.
    pub fn flip_mut(&mut self)
        ensures
            *final(self) == old(self).spec_flip(),
    {
        self.value = !self.value;
    }

    /// Determines whether at least one of the bits selected by `bit_mask` is
    /// set.
    ///
    /// This is deliberately an "any-of" test, not an "all-of" test: a single
    /// overlapping bit is enough for a `true` answer.
    #[verifier::when_used_as_spec(spec_are_set)]
    pub fn are_set(&self, bit_mask: u8) -> (r: bool)
        ensures
            r == self.spec_are_set(bit_mask),
    {
        self.value & bit_mask != 0
    }

    /// Determines whether the bit at `bit_index` is set.
    ///
    /// Any index past the last bit of the byte answers `false`; no error is
    /// reported.
    #[verifier::when_used_as_spec(spec_is_bit_set)]
    pub fn is_bit_set(&self, bit_index: usize) -> (r: bool)
        ensures
            r == self.spec_is_bit_set(bit_index),
            bit_index >= 8 ==> r == false,
    {
        match bit_index {
            0 => self.is_bit_0_set(),
            1 => self.is_bit_1_set(),
            2 => self.is_bit_2_set(),
            3 => self.is_bit_3_set(),
            4 => self.is_bit_4_set(),
            5 => self.is_bit_5_set(),
            6 => self.is_bit_6_set(),
            7 => self.is_bit_7_set(),
            _ => false,
        }
    }

    /// Determines whether the bit at index 0 is set, ignoring all other bits.
    pub fn is_bit_0_set(&self) -> (r: bool)
        ensures
            r == self.spec_are_set(ZERO_BIT_MASK),
    {
        self.are_set(ZERO_BIT_MASK)
    }

    /// Determines whether the bit at index 1 is set, ignoring all other bits.
    pub fn is_bit_1_set(&self) -> (r: bool)
        ensures
            r == self.spec_are_set(FIRST_BIT_MASK),
    {
        self.are_set(FIRST_BIT_MASK)
    }

    /// Determines whether the bit at index 2 is set, ignoring all other bits.
    pub fn is_bit_2_set(&self) -> (r: bool)
        ensures
            r == self.spec_are_set(SECOND_BIT_MASK),
    {
        self.are_set(SECOND_BIT_MASK)
    }

    /// Determines whether the bit at index 3 is set, ignoring all other bits.
    pub fn is_bit_3_set(&self) -> (r: bool)
        ensures
            r == self.spec_are_set(THIRD_BIT_MASK),
    {
        self.are_set(THIRD_BIT_MASK)
    }

    /// Determines whether the bit at index 4 is set, ignoring all other bits.
    pub fn is_bit_4_set(&self) -> (r: bool)
        ensures
            r == self.spec_are_set(FOURTH_BIT_MASK),
    {
        self.are_set(FOURTH_BIT_MASK)
    }

    /// Determines whether the bit at index 5 is set, ignoring all other bits.
    pub fn is_bit_5_set(&self) -> (r: bool)
        ensures
            r == self.spec_are_set(FIFTH_BIT_MASK),
    {
        self.are_set(FIFTH_BIT_MASK)
    }

    /// Determines whether the bit at index 6 is set, ignoring all other bits.
    pub fn is_bit_6_set(&self) -> (r: bool)
        ensures
            r == self.spec_are_set(SIXTH_BIT_MASK),
    {
        self.are_set(SIXTH_BIT_MASK)
    }

    /// Determines whether the bit at index 7 is set, ignoring all other bits.
    pub fn is_bit_7_set(&self) -> (r: bool)
        ensures
            r == self.spec_are_set(SEVENTH_BIT_MASK),
    {
        self.are_set(SEVENTH_BIT_MASK)
    }

    /// Counts the bits that are set to 1.
    ///
    /// An all-zero byte answers 0 and an all-one byte answers 8.
    pub fn count_set_bits(&self) -> (r: u8)
        ensures
            r as int == self.spec_count_set_bits(),
            r <= 8,
    {
        let mut count: u8 = 0;
        if self.value & ZERO_BIT_MASK != 0 {
            count = count + 1;
        }
        if self.value & FIRST_BIT_MASK != 0 {
            count = count + 1;
        }
        if self.value & SECOND_BIT_MASK != 0 {
            count = count + 1;
        }
        if self.value & THIRD_BIT_MASK != 0 {
            count = count + 1;
        }
        if self.value & FOURTH_BIT_MASK != 0 {
            count = count + 1;
        }
        if self.value & FIFTH_BIT_MASK != 0 {
            count = count + 1;
        }
        if self.value & SIXTH_BIT_MASK != 0 {
            count = count + 1;
        }
        if self.value & SEVENTH_BIT_MASK != 0 {
            count = count + 1;
        }
        count
    }

    /// Adds two bytes with saturation: a sum past the byte range is clamped
    /// to [`UberByte::max_value`]; the operation never wraps and never fails.
    #[verifier::when_used_as_spec(spec_add)]
    pub fn add(self, rhs: UberByte) -> (r: UberByte)
        ensures
            r == self.spec_add(rhs),
    {
        match self.value.checked_add(rhs.value) {
            Some(sum) => UberByte { value: sum },
            None => UberByte { value: ALL_BIT_MASK },
        }
    }

    /// Adds `rhs` in place, with the same saturating semantics as
    /// [`UberByte::add`].
    pub fn add_mut(&mut self, rhs: UberByte)
        ensures
            *final(self) == old(self).spec_add(rhs),
    {
        let sum = self.add(rhs);
        self.value = sum.value;
    }

    /// Returns the bitwise AND of the two bytes.
    pub fn bitand(self, rhs: UberByte) -> (r: UberByte)
        ensures
            r.value == (self.value & rhs.value),
    {
        UberByte { value: self.value & rhs.value }
    }

    /// Replaces the byte with the bitwise AND of itself and `rhs`.
    pub fn bitand_mut(&mut self, rhs: UberByte)
        ensures
            final(self).value == (old(self).value & rhs.value),
    {
        self.value = self.value & rhs.value;
    }

    /// Returns the bitwise OR of the two bytes.
    pub fn bitor(self, rhs: UberByte) -> (r: UberByte)
        ensures
            r.value == (self.value | rhs.value),
    {
        UberByte { value: self.value | rhs.value }
    }

    /// Replaces the byte with the bitwise OR of itself and `rhs`.
    pub fn bitor_mut(&mut self, rhs: UberByte)
        ensures
            final(self).value == (old(self).value | rhs.value),
    {
        self.value = self.value | rhs.value;
    }

    /// Returns the bitwise XOR of the two bytes.
    pub fn bitxor(self, rhs: UberByte) -> (r: UberByte)
        ensures
            r.value == (self.value ^ rhs.value),
    {
        UberByte { value: self.value ^ rhs.value }
    }

    /// Replaces the byte with the bitwise XOR of itself and `rhs`.
    pub fn bitxor_mut(&mut self, rhs: UberByte)
        ensures
            final(self).value == (old(self).value ^ rhs.value),
    {
        self.value = self.value ^ rhs.value;
    }

    /// Shifts the byte left by `rhs` positions.
    ///
    /// A shift amount of 8 or more moves every bit out of the byte, so the
    /// result is defined to be all zeroes.
    pub fn shl(self, rhs: UberByte) -> (r: UberByte)
        ensures
            rhs.value < 8 ==> r.value == (self.value << rhs.value),
            rhs.value >= 8 ==> r.value == 0,
    {
        if rhs.value >= 8 {
            UberByte { value: 0 }
        } else {
            UberByte { value: self.value << rhs.value }
        }
    }

    /// Shifts the byte left in place, with the same semantics as
    /// [`UberByte::shl`].
    pub fn shl_mut(&mut self, rhs: UberByte)
        ensures
            rhs.value < 8 ==> final(self).value == (old(self).value << rhs.value),
            rhs.value >= 8 ==> final(self).value == 0,
    {
        let shifted = self.shl(rhs);
        self.value = shifted.value;
    }

    /// Shifts the byte right by `rhs` positions.
    ///
    /// A shift amount of 8 or more moves every bit out of the byte, so the
    /// result is defined to be all zeroes.
    pub fn shr(self, rhs: UberByte) -> (r: UberByte)
        ensures
            rhs.value < 8 ==> r.value == (self.value >> rhs.value),
            rhs.value >= 8 ==> r.value == 0,
    {
        if rhs.value >= 8 {
            UberByte { value: 0 }
        } else {
            UberByte { value: self.value >> rhs.value }
        }
    }

    /// Shifts the byte right in place, with the same semantics as
    /// [`UberByte::shr`].
    pub fn shr_mut(&mut self, rhs: UberByte)
        ensures
            rhs.value < 8 ==> final(self).value == (old(self).value >> rhs.value),
            rhs.value >= 8 ==> final(self).value == 0,
    {
        let shifted = self.shr(rhs);
        self.value = shifted.value;
    }
}

impl From<u8> for UberByte {
    /// Wraps the byte value directly; this conversion is total.
    fn from(value: u8) -> Self {
        UberByte { value }
    }
}

impl vstd::std_specs::convert::FromSpecImpl<u8> for UberByte {
    open spec fn obeys_from_spec() -> bool {
        true
    }

    open spec fn from_spec(value: u8) -> UberByte {
        UberByte { value }
    }
}

impl<'a> From<&'a u8> for UberByte {
    /// Wraps the referenced byte value directly; this conversion is total.
    fn from(value: &'a u8) -> Self {
        UberByte { value: *value }
    }
}

impl<'a> vstd::std_specs::convert::FromSpecImpl<&'a u8> for UberByte {
    open spec fn obeys_from_spec() -> bool {
        true
    }

    open spec fn from_spec(value: &'a u8) -> UberByte {
        UberByte { value: *value }
    }
}

impl Default for UberByte {
    /// The default byte is [`UberByte::min_value`]: no bit is set.
    fn default() -> (r: Self)
        ensures
            r == UberByte::min_value(),
    {
        UberByte::min_value()
    }
}

/// Law: setting a nonzero mask always leaves at least one masked bit set, so
/// `v.set(m).are_set(m)` holds for every byte `v` and every nonzero mask `m`.
pub proof fn lemma_set_then_are_set(v: UberByte, bit_mask: u8)
    requires
        bit_mask != 0,
    ensures
        v.set(bit_mask).are_set(bit_mask),
{
    let w = v.value;
    assert((w | bit_mask) & bit_mask != 0) by (bit_vector)
        requires
            bit_mask != 0,
    ;
}

/// Law: clearing a mask and then testing the same mask never reports a set
/// bit, so `v.clear(m).are_set(m)` is false for every byte `v` and mask `m`.
pub proof fn lemma_clear_then_not_are_set(v: UberByte, bit_mask: u8)
    ensures
        !v.clear(bit_mask).are_set(bit_mask),
{
    let w = v.value;
    assert((w & !bit_mask) & bit_mask == 0) by (bit_vector);
}

/// Law: flipping every bit twice restores the original byte, so
/// `v.flip().flip() == v` for every byte `v`.
pub proof fn lemma_flip_involution(v: UberByte)
    ensures
        v.flip().flip() == v,
{
    let w = v.value;
    assert(!(!w) == w) by (bit_vector);
}

} // verus!
