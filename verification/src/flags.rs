//! Flag sets of the `MAVLink 2` header.

use vstd::prelude::*;
use vstd::std_specs::ops::BitOrSpecImpl;
use crate::consts::MAVLINK_IFLAG_SIGNED;

verus! {

/// Whether the "signed" bit is set in a byte of incompatibility flags.
pub open spec fn signed_bit(bits: u8) -> bool {
    bits & MAVLINK_IFLAG_SIGNED == MAVLINK_IFLAG_SIGNED
}

/// Incompatibility flags: a receiver that does not understand a flag must drop the frame.
#[derive(Clone, Copy, Debug, PartialEq, Eq, Hash, Structural)]
pub struct IncompatFlags {
    bits: u8,
}

impl IncompatFlags {
    /// The flags as a byte.
    pub closed spec fn view(&self) -> u8 {
        self.bits
    }

    /// The frame is signed.
    #[allow(non_snake_case)]
    pub fn MAVLINK_IFLAG_SIGNED() -> (f: IncompatFlags)
        ensures
            f@ == MAVLINK_IFLAG_SIGNED,
    {
        IncompatFlags { bits: MAVLINK_IFLAG_SIGNED }
    }

    /// Second bit.
    #[allow(non_snake_case)]
    pub fn BIT_2() -> (f: IncompatFlags)
        ensures
            f@ == 0x02,
    {
        IncompatFlags { bits: 0x02 }
    }

    /// Third bit.
    #[allow(non_snake_case)]
    pub fn BIT_3() -> (f: IncompatFlags)
        ensures
            f@ == 0x04,
    {
        IncompatFlags { bits: 0x04 }
    }

    /// Fourth bit.
    #[allow(non_snake_case)]
    pub fn BIT_4() -> (f: IncompatFlags)
        ensures
            f@ == 0x08,
    {
        IncompatFlags { bits: 0x08 }
    }

    /// Fifth bit.
    #[allow(non_snake_case)]
    pub fn BIT_5() -> (f: IncompatFlags)
        ensures
            f@ == 0x10,
    {
        IncompatFlags { bits: 0x10 }
    }

    /// Sixth bit.
    #[allow(non_snake_case)]
    pub fn BIT_6() -> (f: IncompatFlags)
        ensures
            f@ == 0x20,
    {
        IncompatFlags { bits: 0x20 }
    }

    /// Seventh bit.
    #[allow(non_snake_case)]
    pub fn BIT_7() -> (f: IncompatFlags)
        ensures
            f@ == 0x40,
    {
        IncompatFlags { bits: 0x40 }
    }

    /// Eighth bit.
    #[allow(non_snake_case)]
    pub fn BIT_8() -> (f: IncompatFlags)
        ensures
            f@ == 0x80,
    {
        IncompatFlags { bits: 0x80 }
    }

    /// No flag set.
    pub fn empty() -> (f: IncompatFlags)
        ensures
            f@ == 0,
    {
        IncompatFlags { bits: 0 }
    }

    /// Every flag set.
    pub fn all() -> (f: IncompatFlags)
        ensures
            f@ == 0xff,
    {
        IncompatFlags { bits: 0xff }
    }

    /// The flags as a byte.
    pub fn bits(&self) -> (b: u8)
        ensures
            b == self@,
    {
        self.bits
    }

    /// Flags from a byte. Every bit is a flag, so nothing is dropped.
    pub fn from_bits_truncate(bits: u8) -> (f: IncompatFlags)
        ensures
            f@ == bits,
    {
        IncompatFlags { bits }
    }

    /// Flags from a byte. Every bit is a flag, so every byte is accepted.
    pub fn from_bits(bits: u8) -> (f: Option<IncompatFlags>)
        ensures
            f matches Some(flags) && flags@ == bits,
    {
        Some(IncompatFlags { bits })
    }

    /// Whether no flag is set.
    pub fn is_empty(&self) -> (b: bool)
        ensures
            b == (self@ == 0),
    {
        self.bits == 0
    }

    /// Whether every flag of `other` is set in `self`.
    pub fn contains(&self, other: IncompatFlags) -> (b: bool)
        ensures
            b == (self@ & other@ == other@),
    {
        self.bits & other.bits == other.bits
    }

    /// Whether `self` and `other` share a flag.
    pub fn intersects(&self, other: IncompatFlags) -> (b: bool)
        ensures
            b == (self@ & other@ != 0),
    {
        self.bits & other.bits != 0
    }

    /// Sets the flags of `other`.
    pub fn insert(&mut self, other: IncompatFlags)
        ensures
            final(self)@ == old(self)@ | other@,
    {
        self.bits = self.bits | other.bits;
    }

    /// Clears the flags of `other`.
    pub fn remove(&mut self, other: IncompatFlags)
        ensures
            final(self)@ == old(self)@ & !other@,
    {
        self.bits = self.bits & !other.bits;
    }

    /// Sets the flags of `other` if `value` holds, and clears them otherwise.
    pub fn set(&mut self, other: IncompatFlags, value: bool)
        ensures
            value ==> final(self)@ == old(self)@ | other@,
            !value ==> final(self)@ == old(self)@ & !other@,
    {
        if value {
            self.insert(other);
        } else {
            self.remove(other);
        }
    }

    /// The flags set in `self` or in `other`.
    pub fn union(self, other: IncompatFlags) -> (f: IncompatFlags)
        ensures
            f@ == self@ | other@,
    {
        IncompatFlags { bits: self.bits | other.bits }
    }

    /// The flags set both in `self` and in `other`.
    pub fn intersection(self, other: IncompatFlags) -> (f: IncompatFlags)
        ensures
            f@ == self@ & other@,
    {
        IncompatFlags { bits: self.bits & other.bits }
    }

    /// The flags set in `self` but not in `other`.
    pub fn difference(self, other: IncompatFlags) -> (f: IncompatFlags)
        ensures
            f@ == self@ & !other@,
    {
        IncompatFlags { bits: self.bits & !other.bits }
    }

    /// Whether the "signed" flag is set.
    pub fn is_signed(&self) -> (b: bool)
        ensures
            b == signed_bit(self@),
    {
        self.bits & MAVLINK_IFLAG_SIGNED == MAVLINK_IFLAG_SIGNED
    }

    /// These flags with the "signed" flag set to `value` and every other flag kept.
    pub fn with_signed(self, value: bool) -> (f: IncompatFlags)
        ensures
            f@ == with_signed_bit(self@, value),
    {
        if value {
            IncompatFlags { bits: self.bits | MAVLINK_IFLAG_SIGNED }
        } else {
            IncompatFlags { bits: self.bits & !MAVLINK_IFLAG_SIGNED }
        }
    }
}

/// A byte of incompatibility flags with the "signed" bit set to `value`.
pub open spec fn with_signed_bit(bits: u8, value: bool) -> u8 {
    if value {
        bits | MAVLINK_IFLAG_SIGNED
    } else {
        bits & !MAVLINK_IFLAG_SIGNED
    }
}

/// Setting the "signed" bit makes it read as set, clearing it makes it read as clear, setting it
/// to what it already is changes nothing, and the result does not depend on the bit's state
/// before.
pub proof fn lemma_with_signed_bit(bits: u8, value: bool)
    ensures
        signed_bit(with_signed_bit(bits, value)) == value,
        signed_bit(bits) == value ==> with_signed_bit(bits, value) == bits,
        with_signed_bit(with_signed_bit(bits, !value), value) == with_signed_bit(bits, value),
        with_signed_bit(with_signed_bit(bits, value), value) == with_signed_bit(bits, value),
        !signed_bit(0u8),
        signed_bit(MAVLINK_IFLAG_SIGNED),
{
    assert((bits | 1u8) & 1u8 == 1u8) by (bit_vector);
    assert((bits & !1u8) & 1u8 != 1u8) by (bit_vector);
    assert(bits & 1u8 == 1u8 ==> bits | 1u8 == bits) by (bit_vector);
    assert(bits & 1u8 != 1u8 ==> bits & !1u8 == bits) by (bit_vector);
    assert((bits & !1u8) | 1u8 == bits | 1u8) by (bit_vector);
    assert((bits | 1u8) & !1u8 == bits & !1u8) by (bit_vector);
    assert((bits | 1u8) | 1u8 == bits | 1u8) by (bit_vector);
    assert((bits & !1u8) & !1u8 == bits & !1u8) by (bit_vector);
    assert(0u8 & 1u8 != 1u8) by (bit_vector);
    assert(1u8 & 1u8 == 1u8) by (bit_vector);
}

impl Default for IncompatFlags {
    /// No flag set.
    fn default() -> (f: IncompatFlags)
        ensures
            f@ == 0,
    {
        IncompatFlags { bits: 0 }
    }
}

impl core::ops::BitOr for IncompatFlags {
    type Output = IncompatFlags;

    /// The flags set in either operand.
    fn bitor(self, rhs: IncompatFlags) -> (r: IncompatFlags)
        ensures
            r@ == self@ | rhs@,
    {
        IncompatFlags { bits: self.bits | rhs.bits }
    }
}

impl BitOrSpecImpl for IncompatFlags {
    open spec fn obeys_bitor_spec() -> bool {
        true
    }

    open spec fn bitor_req(self, rhs: IncompatFlags) -> bool {
        true
    }

    closed spec fn bitor_spec(self, rhs: IncompatFlags) -> IncompatFlags {
        IncompatFlags { bits: self.bits | rhs.bits }
    }
}

/// Compatibility flags: a receiver that does not understand a flag may still handle the frame.
#[derive(Clone, Copy, Debug, PartialEq, Eq, Hash, Structural)]
pub struct CompatFlags {
    bits: u8,
}

impl CompatFlags {
    /// The flags as a byte.
    pub closed spec fn view(&self) -> u8 {
        self.bits
    }

    /// First bit.
    #[allow(non_snake_case)]
    pub fn BIT_1() -> (f: CompatFlags)
        ensures
            f@ == 0x01,
    {
        CompatFlags { bits: 0x01 }
    }

    /// Second bit.
    #[allow(non_snake_case)]
    pub fn BIT_2() -> (f: CompatFlags)
        ensures
            f@ == 0x02,
    {
        CompatFlags { bits: 0x02 }
    }

    /// Third bit.
    #[allow(non_snake_case)]
    pub fn BIT_3() -> (f: CompatFlags)
        ensures
            f@ == 0x04,
    {
        CompatFlags { bits: 0x04 }
    }

    /// Fourth bit.
    #[allow(non_snake_case)]
    pub fn BIT_4() -> (f: CompatFlags)
        ensures
            f@ == 0x08,
    {
        CompatFlags { bits: 0x08 }
    }

    /// Fifth bit.
    #[allow(non_snake_case)]
    pub fn BIT_5() -> (f: CompatFlags)
        ensures
            f@ == 0x10,
    {
        CompatFlags { bits: 0x10 }
    }

    /// Sixth bit.
    #[allow(non_snake_case)]
    pub fn BIT_6() -> (f: CompatFlags)
        ensures
            f@ == 0x20,
    {
        CompatFlags { bits: 0x20 }
    }

    /// Seventh bit.
    #[allow(non_snake_case)]
    pub fn BIT_7() -> (f: CompatFlags)
        ensures
            f@ == 0x40,
    {
        CompatFlags { bits: 0x40 }
    }

    /// Eighth bit.
    #[allow(non_snake_case)]
    pub fn BIT_8() -> (f: CompatFlags)
        ensures
            f@ == 0x80,
    {
        CompatFlags { bits: 0x80 }
    }

    /// No flag set.
    pub fn empty() -> (f: CompatFlags)
        ensures
            f@ == 0,
    {
        CompatFlags { bits: 0 }
    }

    /// Every flag set.
    pub fn all() -> (f: CompatFlags)
        ensures
            f@ == 0xff,
    {
        CompatFlags { bits: 0xff }
    }

    /// The flags as a byte.
    pub fn bits(&self) -> (b: u8)
        ensures
            b == self@,
    {
        self.bits
    }

    /// Flags from a byte. Every bit is a flag, so nothing is dropped.
    pub fn from_bits_truncate(bits: u8) -> (f: CompatFlags)
        ensures
            f@ == bits,
    {
        CompatFlags { bits }
    }

    /// Flags from a byte. Every bit is a flag, so every byte is accepted.
    pub fn from_bits(bits: u8) -> (f: Option<CompatFlags>)
        ensures
            f matches Some(flags) && flags@ == bits,
    {
        Some(CompatFlags { bits })
    }

    /// Whether no flag is set.
    pub fn is_empty(&self) -> (b: bool)
        ensures
            b == (self@ == 0),
    {
        self.bits == 0
    }

    /// Whether every flag of `other` is set in `self`.
    pub fn contains(&self, other: CompatFlags) -> (b: bool)
        ensures
            b == (self@ & other@ == other@),
    {
        self.bits & other.bits == other.bits
    }

    /// Whether `self` and `other` share a flag.
    pub fn intersects(&self, other: CompatFlags) -> (b: bool)
        ensures
            b == (self@ & other@ != 0),
    {
        self.bits & other.bits != 0
    }

    /// Sets the flags of `other`.
    pub fn insert(&mut self, other: CompatFlags)
        ensures
            final(self)@ == old(self)@ | other@,
    {
        self.bits = self.bits | other.bits;
    }

    /// Clears the flags of `other`.
    pub fn remove(&mut self, other: CompatFlags)
        ensures
            final(self)@ == old(self)@ & !other@,
    {
        self.bits = self.bits & !other.bits;
    }

    /// Sets the flags of `other` if `value` holds, and clears them otherwise.
    pub fn set(&mut self, other: CompatFlags, value: bool)
        ensures
            value ==> final(self)@ == old(self)@ | other@,
            !value ==> final(self)@ == old(self)@ & !other@,
    {
        if value {
            self.insert(other);
        } else {
            self.remove(other);
        }
    }

    /// The flags set in `self` or in `other`.
    pub fn union(self, other: CompatFlags) -> (f: CompatFlags)
        ensures
            f@ == self@ | other@,
    {
        CompatFlags { bits: self.bits | other.bits }
    }

    /// The flags set both in `self` and in `other`.
    pub fn intersection(self, other: CompatFlags) -> (f: CompatFlags)
        ensures
            f@ == self@ & other@,
    {
        CompatFlags { bits: self.bits & other.bits }
    }

    /// The flags set in `self` but not in `other`.
    pub fn difference(self, other: CompatFlags) -> (f: CompatFlags)
        ensures
            f@ == self@ & !other@,
    {
        CompatFlags { bits: self.bits & !other.bits }
    }
}

impl Default for CompatFlags {
    /// No flag set.
    fn default() -> (f: CompatFlags)
        ensures
            f@ == 0,
    {
        CompatFlags { bits: 0 }
    }
}

impl core::ops::BitOr for CompatFlags {
    type Output = CompatFlags;

    /// The flags set in either operand.
    fn bitor(self, rhs: CompatFlags) -> (r: CompatFlags)
        ensures
            r@ == self@ | rhs@,
    {
        CompatFlags { bits: self.bits | rhs.bits }
    }
}

impl BitOrSpecImpl for CompatFlags {
    open spec fn obeys_bitor_spec() -> bool {
        true
    }

    open spec fn bitor_req(self, rhs: CompatFlags) -> bool {
        true
    }

    closed spec fn bitor_spec(self, rhs: CompatFlags) -> CompatFlags {
        CompatFlags { bits: self.bits | rhs.bits }
    }
}

} // verus!
