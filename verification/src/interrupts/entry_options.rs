//! The options word of an interrupt entry.
use vstd::prelude::*;

verus! {

/// The 16-bit options word of a entry: the stack index in bits 0 to 2, the entry
/// type in bits 8 to 11 (bit 8 clear makes the entry switch interrupts off), the
/// privilege level in bits 13 and 14 and the present bit in bit 15.
#[derive(Clone, Copy, Debug, PartialEq, Eq, Structural)]
pub struct IDTEntryOptions(u16);

impl View for IDTEntryOptions {
    type V = u16;

    closed spec fn view(&self) -> u16 {
        self.0
    }
}

/// `word` with bit `bit_number` set to `target_value`.
pub open spec fn spec_with_bit(word: u16, bit_number: u8, target_value: bool) -> u16 {
    if target_value {
        word | (1u16 << (bit_number as u16))
    } else {
        word & !(1u16 << (bit_number as u16))
    }
}

/// `word` with `stack + 1` in its bits 0 to 2.
pub open spec fn spec_with_stack_index(word: u16, stack: u8) -> u16 {
    (word & 0xfff8) | ((stack + 1) as u16)
}

/// `word` with the low two bits of `dpl` in its bits 13 and 14.
pub open spec fn spec_with_privilege_level(word: u16, dpl: u8) -> u16 {
    (word & 0x9fff) | (((dpl & 3) as u16) << 13)
}

impl IDTEntryOptions {
    /// Whether the present bit is set.
    pub open spec fn spec_is_present(self) -> bool {
        self@ & 0x8000 != 0
    }

    /// The value of the stack index field, which is one more than the index of
    /// the stack in the interrupt stack table, or 0 for no stack switch.
    pub open spec fn spec_stack_field(self) -> u16 {
        self@ & 7
    }

    /// The privilege level that a caller needs to raise the entry by software.
    pub open spec fn spec_privilege_level(self) -> u16 {
        (self@ >> 13) & 3
    }

    /// Whether the entry switches interrupts off on entry.
    pub open spec fn spec_interrupts_disabled(self) -> bool {
        self@ & 0x100 == 0
    }

    /// Options with only the bits set that must always be one; not present.
    pub fn minimal() -> (result: IDTEntryOptions)
        ensures
            result@ == 0x0e00,
            !result.spec_is_present(),
    {
        assert(0x0e00u16 & 0x8000 == 0) by (bit_vector);
        IDTEntryOptions(0x0e00)
    }

    /// Options of a present entry that switches interrupts off on entry.
    pub fn present() -> (result: IDTEntryOptions)
        ensures
            result@ == 0x8e00,
            result.spec_is_present(),
            result.spec_interrupts_disabled(),
            result.spec_stack_field() == 0,
            result.spec_privilege_level() == 0,
    {
        let mut options = Self::minimal();
        options.set_present(true).disable_interrupts(true);
        assert({
            let v = (0x0e00u16 | (1u16 << 15)) & !(1u16 << 8);
            v == 0x8e00 && v & 0x8000 != 0 && v & 0x100 == 0 && v & 7 == 0 && (v >> 13) & 3 == 0
        }) by (bit_vector);
        options
    }

    pub fn set_present(&mut self, present: bool) -> (result: &mut Self)
        ensures
            result@ == spec_with_bit(old(self)@, 15, present),
            result.spec_is_present() == present,
            *final(self) == *final(result),
    {
        let word: u16 = self.0;
        assert((word | (1u16 << 15)) & 0x8000 != 0 && (word & !(1u16 << 15)) & 0x8000 == 0)
            by (bit_vector);
        self.set_bit(15, present);
        self
    }

    /// Makes the entry switch interrupts off on entry, or leave them as they are.
    pub fn disable_interrupts(&mut self, disable: bool) -> (result: &mut Self)
        ensures
            result@ == spec_with_bit(old(self)@, 8, !disable),
            result.spec_interrupts_disabled() == disable,
            result.spec_is_present() == old(self).spec_is_present(),
            *final(self) == *final(result),
    {
        let word: u16 = self.0;
        assert((word | (1u16 << 8)) & 0x100 != 0 && (word & !(1u16 << 8)) & 0x100 == 0 && (word | (
        1u16 << 8)) & 0x8000 == word & 0x8000 && (word & !(1u16 << 8)) & 0x8000 == word & 0x8000)
            by (bit_vector);
        self.set_bit(8, !disable);
        self
    }

    /// Writes the low two bits of `dpl` into the privilege level field.
    pub fn set_privilege_level(&mut self, dpl: u8) -> (result: &mut Self)
        ensures
            result@ == spec_with_privilege_level(old(self)@, dpl),
            result.spec_privilege_level() == dpl & 3,
            result.spec_is_present() == old(self).spec_is_present(),
            result.spec_stack_field() == old(self).spec_stack_field(),
            *final(self) == *final(result),
    {
        let word: u16 = self.0;
        let level: u16 = (dpl & 3) as u16;
        assert(level <= 3) by {
            assert(dpl & 3 <= 3) by (bit_vector);
        }
        assert(level <= 3 ==> {
            let v = (word & 0x9fff) | (level << 13);
            (v >> 13) & 3 == level && v & 0x8000 == word & 0x8000 && v & 7 == word & 7
        }) by (bit_vector);
        self.0 = (word & 0x9fff) | (level << 13);
        self
    }

    /// Makes the entry run on stack `index` of the interrupt stack table. The
    /// field holds the index plus one, since 0 stands for no stack switch.
    pub fn set_stack_index(&mut self, index: u8) -> (result: &mut Self)
        requires
            index < 7,
        ensures
            result@ == spec_with_stack_index(old(self)@, index),
            result.spec_stack_field() == index + 1,
            result.spec_is_present() == old(self).spec_is_present(),
            result.spec_privilege_level() == old(self).spec_privilege_level(),
            *final(self) == *final(result),
    {
        let word: u16 = self.0;
        let field: u16 = (index + 1) as u16;
        assert(field <= 7 ==> {
            let v = (word & 0xfff8) | field;
            v & 7 == field && v & 0x8000 == word & 0x8000 && (v >> 13) & 3 == (word >> 13) & 3
        }) by (bit_vector);
        self.0 = (word & 0xfff8) | field;
        self
    }

    fn set_bit(&mut self, bit_number: u8, target_value: bool)
        requires
            bit_number < 16,
        ensures
            final(self)@ == spec_with_bit(old(self)@, bit_number, target_value),
    {
        if target_value {
            self.0 = self.0 | (1u16 << bit_number);
        } else {
            self.0 = self.0 & !(1u16 << bit_number);
        }
    }

    pub fn value(&self) -> (result: u16)
        ensures
            result == self@,
    {
        self.0
    }

    pub fn is_present(&self) -> (result: bool)
        ensures
            result == self.spec_is_present(),
    {
        self.0 & 0x8000 != 0
    }

    /// The value of the stack index field: 0 for no stack switch, else the
    /// index of the stack plus one.
    pub fn stack_field(&self) -> (result: u16)
        ensures
            result == self.spec_stack_field(),
    {
        self.0 & 7
    }

    pub fn privilege_level(&self) -> (result: u16)
        ensures
            result == self.spec_privilege_level(),
    {
        (self.0 >> 13) & 3
    }

    pub fn interrupts_disabled(&self) -> (result: bool)
        ensures
            result == self.spec_interrupts_disabled(),
    {
        self.0 & 0x100 == 0
    }
}

} // verus!
