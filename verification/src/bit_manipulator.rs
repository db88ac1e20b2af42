//! Single-bit reads and writes on the fixed-width unsigned integers.
use vstd::prelude::*;

verus! {

/// Bit-level access to an unsigned integer of type `T`.
///
/// Positions count from the least significant bit, which is position 0.
pub trait BitManipulation<T>: Sized {
    /// Number of bits in the integer.
    spec fn bit_width() -> nat;

    /// The bit at `position`, as 0 or 1.
    spec fn spec_get_bit(&self, position: u8) -> T;

    /// The integer with the bit at `position` set to `target_value`.
    spec fn spec_set_bit(&self, position: u8, target_value: u8) -> Self;

    /// Whether the integer shares a set bit with the mask `bit`.
    spec fn spec_is_bit_set(&self, bit: T) -> bool;

    /// Writes `target_value` (0 or 1) into the bit at `position`.
    fn set_bit(&mut self, position: u8, target_value: u8)
        requires
            (position as nat) < Self::bit_width(),
            target_value <= 1,
        ensures
            *final(self) == old(self).spec_set_bit(position, target_value),
    ;

    /// Reads the bit at `position` as 0 or 1.
    fn get_bit(&self, position: u8) -> (bit: T)
        requires
            (position as nat) < Self::bit_width(),
        ensures
            bit == self.spec_get_bit(position),
    ;

    /// Tests the integer against the mask `bit`.
    fn is_bit_set(&self, bit: T) -> (set: bool)
        ensures
            set == self.spec_is_bit_set(bit),
    ;
}

impl BitManipulation<u8> for u8 {
    open spec fn bit_width() -> nat {
        8
    }

    open spec fn spec_get_bit(&self, position: u8) -> u8 {
        (*self >> (position as u8)) & 1
    }

    open spec fn spec_set_bit(&self, position: u8, target_value: u8) -> u8 {
        if target_value == 1 {
            *self | (1u8 << (position as u8))
        } else {
            *self & !(1u8 << (position as u8))
        }
    }

    open spec fn spec_is_bit_set(&self, bit: u8) -> bool {
        *self & bit != 0
    }

    fn get_bit(&self, position: u8) -> (bit: u8) {
        (*self >> position) & 0x1
    }

    fn set_bit(&mut self, position: u8, target_value: u8) {
        if target_value == 1 {
            *self |= 1 << position;
        } else {
            *self &= !(1 << position);
        }
    }

    fn is_bit_set(&self, bit: u8) -> (set: bool) {
        (*self & bit) > 0
    }
}

/// Reading a bit of a `u8` right after writing it gives the written value, and
/// every other bit reads as it did before the write.
pub proof fn lemma_set_then_get_u8(value: u8, position: u8, target_value: u8, other: u8)
    requires
        position < 8,
        other < 8,
        target_value <= 1,
    ensures
        value.spec_set_bit(position, target_value).spec_get_bit(position) == target_value,
        other != position ==> value.spec_set_bit(position, target_value).spec_get_bit(other)
            == value.spec_get_bit(other),
        value.spec_get_bit(other) <= 1,
{
    let p = position as u8;
    let o = other as u8;
    assert(p < 8 && o < 8 ==> (((value | (1u8 << p)) >> p) & 1) == 1 && (((value & !(1u8
        << p)) >> p) & 1) == 0 && ((value >> o) & 1) <= 1 && (o != p ==> (((value | (1u8 << p))
        >> o) & 1) == ((value >> o) & 1) && (((value & !(1u8 << p)) >> o) & 1) == ((value >> o)
        & 1))) by (bit_vector);
}

impl BitManipulation<u16> for u16 {
    open spec fn bit_width() -> nat {
        16
    }

    open spec fn spec_get_bit(&self, position: u8) -> u16 {
        (*self >> (position as u16)) & 1
    }

    open spec fn spec_set_bit(&self, position: u8, target_value: u8) -> u16 {
        if target_value == 1 {
            *self | (1u16 << (position as u16))
        } else {
            *self & !(1u16 << (position as u16))
        }
    }

    open spec fn spec_is_bit_set(&self, bit: u16) -> bool {
        *self & bit != 0
    }

    fn get_bit(&self, position: u8) -> (bit: u16) {
        (*self >> position) & 0x1
    }

    fn set_bit(&mut self, position: u8, target_value: u8) {
        if target_value == 1 {
            *self |= 1 << position;
        } else {
            *self &= !(1 << position);
        }
    }

    fn is_bit_set(&self, bit: u16) -> (set: bool) {
        (*self & bit) > 0
    }
}

/// Reading a bit of a `u16` right after writing it gives the written value, and
/// every other bit reads as it did before the write.
pub proof fn lemma_set_then_get_u16(value: u16, position: u8, target_value: u8, other: u8)
    requires
        position < 16,
        other < 16,
        target_value <= 1,
    ensures
        value.spec_set_bit(position, target_value).spec_get_bit(position) == target_value,
        other != position ==> value.spec_set_bit(position, target_value).spec_get_bit(other)
            == value.spec_get_bit(other),
        value.spec_get_bit(other) <= 1,
{
    let p = position as u16;
    let o = other as u16;
    assert(p < 16 && o < 16 ==> (((value | (1u16 << p)) >> p) & 1) == 1 && (((value & !(1u16
        << p)) >> p) & 1) == 0 && ((value >> o) & 1) <= 1 && (o != p ==> (((value | (1u16 << p))
        >> o) & 1) == ((value >> o) & 1) && (((value & !(1u16 << p)) >> o) & 1) == ((value >> o)
        & 1))) by (bit_vector);
}

impl BitManipulation<u32> for u32 {
    open spec fn bit_width() -> nat {
        32
    }

    open spec fn spec_get_bit(&self, position: u8) -> u32 {
        (*self >> (position as u32)) & 1
    }

    open spec fn spec_set_bit(&self, position: u8, target_value: u8) -> u32 {
        if target_value == 1 {
            *self | (1u32 << (position as u32))
        } else {
            *self & !(1u32 << (position as u32))
        }
    }

    open spec fn spec_is_bit_set(&self, bit: u32) -> bool {
        *self & bit != 0
    }

    fn get_bit(&self, position: u8) -> (bit: u32) {
        (*self >> position) & 0x1
    }

    fn set_bit(&mut self, position: u8, target_value: u8) {
        if target_value == 1 {
            *self |= 1 << position;
        } else {
            *self &= !(1 << position);
        }
    }

    fn is_bit_set(&self, bit: u32) -> (set: bool) {
        (*self & bit) > 0
    }
}

/// Reading a bit of a `u32` right after writing it gives the written value, and
/// every other bit reads as it did before the write.
pub proof fn lemma_set_then_get_u32(value: u32, position: u8, target_value: u8, other: u8)
    requires
        position < 32,
        other < 32,
        target_value <= 1,
    ensures
        value.spec_set_bit(position, target_value).spec_get_bit(position) == target_value,
        other != position ==> value.spec_set_bit(position, target_value).spec_get_bit(other)
            == value.spec_get_bit(other),
        value.spec_get_bit(other) <= 1,
{
    let p = position as u32;
    let o = other as u32;
    assert(p < 32 && o < 32 ==> (((value | (1u32 << p)) >> p) & 1) == 1 && (((value & !(1u32
        << p)) >> p) & 1) == 0 && ((value >> o) & 1) <= 1 && (o != p ==> (((value | (1u32 << p))
        >> o) & 1) == ((value >> o) & 1) && (((value & !(1u32 << p)) >> o) & 1) == ((value >> o)
        & 1))) by (bit_vector);
}

impl BitManipulation<u64> for u64 {
    open spec fn bit_width() -> nat {
        64
    }

    open spec fn spec_get_bit(&self, position: u8) -> u64 {
        (*self >> (position as u64)) & 1
    }

    open spec fn spec_set_bit(&self, position: u8, target_value: u8) -> u64 {
        if target_value == 1 {
            *self | (1u64 << (position as u64))
        } else {
            *self & !(1u64 << (position as u64))
        }
    }

    open spec fn spec_is_bit_set(&self, bit: u64) -> bool {
        *self & bit != 0
    }

    fn get_bit(&self, position: u8) -> (bit: u64) {
        (*self >> position) & 0x1
    }

    fn set_bit(&mut self, position: u8, target_value: u8) {
        if target_value == 1 {
            *self |= 1 << position;
        } else {
            *self &= !(1 << position);
        }
    }

    fn is_bit_set(&self, bit: u64) -> (set: bool) {
        (*self & bit) > 0
    }
}

/// Reading a bit of a `u64` right after writing it gives the written value, and
/// every other bit reads as it did before the write.
pub proof fn lemma_set_then_get_u64(value: u64, position: u8, target_value: u8, other: u8)
    requires
        position < 64,
        other < 64,
        target_value <= 1,
    ensures
        value.spec_set_bit(position, target_value).spec_get_bit(position) == target_value,
        other != position ==> value.spec_set_bit(position, target_value).spec_get_bit(other)
            == value.spec_get_bit(other),
        value.spec_get_bit(other) <= 1,
{
    let p = position as u64;
    let o = other as u64;
    assert(p < 64 && o < 64 ==> (((value | (1u64 << p)) >> p) & 1) == 1 && (((value & !(1u64
        << p)) >> p) & 1) == 0 && ((value >> o) & 1) <= 1 && (o != p ==> (((value | (1u64 << p))
        >> o) & 1) == ((value >> o) & 1) && (((value & !(1u64 << p)) >> o) & 1) == ((value >> o)
        & 1))) by (bit_vector);
}

} // verus!
