//! The task state segment, which names the stacks that the processor switches
//! to on a privilege change or on a fault that asks for a stack of its own.
use crate::virtual_address::{spec_is_canonical, VirtualAddress};
use vstd::prelude::*;

verus! {

/// Slot of the interrupt stack table that holds the double-fault stack.
pub const DOUBLE_FAULT_STACK_INDEX: u8 = 0;

/// Size in bytes of the stack reserved for the double-fault handler.
pub const STACK_SIZE: usize = 20480;

/// Size in bytes of the segment as the processor lays it out.
pub const TSS_SIZE: u64 = 104;

#[derive(Clone, Copy, Debug)]
pub struct TaskStateSegment {
    pub reserved_1: u32,
    pub privileged_stack_table: [VirtualAddress; 3],
    pub reserved_2: u64,
    pub interrupt_stack_table: [VirtualAddress; 7],
    pub reserved_3: u64,
    pub reserved_4: u16,
    pub io_map_base_address: u16,
}

/// Number of 32-bit words in the segment as the processor lays it out.
pub const TSS_WORDS: usize = 26;

/// The low half of `value`.
pub open spec fn spec_low_word(value: usize) -> u32 {
    (value as u64 & 0xffff_ffff) as u32
}

/// The high half of `value`.
pub open spec fn spec_high_word(value: usize) -> u32 {
    (value as u64 >> 32) as u32
}

impl TaskStateSegment {
    /// The segment as the processor lays it out, in words of 32 bits: a
    /// reserved word, the three privileged stacks, two reserved words, the
    /// seven interrupt stacks, three reserved words, and the base of the I/O
    /// map in the upper half of the last word. Each address takes two words,
    /// the low half first.
    pub open spec fn spec_encode(&self) -> Seq<u32> {
        seq![
            self.reserved_1,
            spec_low_word(self.privileged_stack_table[0]@),
            spec_high_word(self.privileged_stack_table[0]@),
            spec_low_word(self.privileged_stack_table[1]@),
            spec_high_word(self.privileged_stack_table[1]@),
            spec_low_word(self.privileged_stack_table[2]@),
            spec_high_word(self.privileged_stack_table[2]@),
            (self.reserved_2 & 0xffff_ffff) as u32,
            (self.reserved_2 >> 32) as u32,
            spec_low_word(self.interrupt_stack_table[0]@),
            spec_high_word(self.interrupt_stack_table[0]@),
            spec_low_word(self.interrupt_stack_table[1]@),
            spec_high_word(self.interrupt_stack_table[1]@),
            spec_low_word(self.interrupt_stack_table[2]@),
            spec_high_word(self.interrupt_stack_table[2]@),
            spec_low_word(self.interrupt_stack_table[3]@),
            spec_high_word(self.interrupt_stack_table[3]@),
            spec_low_word(self.interrupt_stack_table[4]@),
            spec_high_word(self.interrupt_stack_table[4]@),
            spec_low_word(self.interrupt_stack_table[5]@),
            spec_high_word(self.interrupt_stack_table[5]@),
            spec_low_word(self.interrupt_stack_table[6]@),
            spec_high_word(self.interrupt_stack_table[6]@),
            (self.reserved_3 & 0xffff_ffff) as u32,
            (self.reserved_3 >> 32) as u32,
            (self.reserved_4 as u32) | ((self.io_map_base_address as u32) << 16),
        ]
    }

    /// The 104 bytes of the segment as the processor reads them, in words of
    /// 32 bits.
    pub fn encode(&self) -> (result: [u32; 26])
        ensures
            result@ == self.spec_encode(),
    {
        let mut words: [u32; 26] = [0;26];
        words[0] = self.reserved_1;
        let mut slot: usize = 0;
        while slot < 3
            invariant
                slot <= 3,
                words[0] == self.reserved_1,
                forall|i: int|
                    0 <= i < slot ==> words[1 + 2 * i] == spec_low_word(
                        (#[trigger] self.privileged_stack_table[i])@,
                    ) && words[2 + 2 * i] == spec_high_word(self.privileged_stack_table[i]@),
            decreases 3 - slot,
        {
            let value: u64 = self.privileged_stack_table[slot].value() as u64;
            words[1 + 2 * slot] = (value & 0xffff_ffff) as u32;
            words[2 + 2 * slot] = (value >> 32) as u32;
            slot = slot + 1;
        }
        words[7] = (self.reserved_2 & 0xffff_ffff) as u32;
        words[8] = (self.reserved_2 >> 32) as u32;
        slot = 0;
        while slot < 7
            invariant
                slot <= 7,
                words[0] == self.reserved_1,
                words[7] == (self.reserved_2 & 0xffff_ffff) as u32,
                words[8] == (self.reserved_2 >> 32) as u32,
                forall|i: int|
                    0 <= i < 3 ==> words[1 + 2 * i] == spec_low_word(
                        (#[trigger] self.privileged_stack_table[i])@,
                    ) && words[2 + 2 * i] == spec_high_word(self.privileged_stack_table[i]@),
                forall|i: int|
                    0 <= i < slot ==> words[9 + 2 * i] == spec_low_word(
                        (#[trigger] self.interrupt_stack_table[i])@,
                    ) && words[10 + 2 * i] == spec_high_word(self.interrupt_stack_table[i]@),
            decreases 7 - slot,
        {
            let value: u64 = self.interrupt_stack_table[slot].value() as u64;
            words[9 + 2 * slot] = (value & 0xffff_ffff) as u32;
            words[10 + 2 * slot] = (value >> 32) as u32;
            slot = slot + 1;
        }
        words[23] = (self.reserved_3 & 0xffff_ffff) as u32;
        words[24] = (self.reserved_3 >> 32) as u32;
        words[25] = (self.reserved_4 as u32) | ((self.io_map_base_address as u32) << 16);
        proof {
            assert(words@ =~= self.spec_encode());
        }
        words
    }

    /// Whether every stack slot and every reserved field is zero.
    pub open spec fn is_blank(&self) -> bool {
        &&& self.reserved_1 == 0
        &&& self.reserved_2 == 0
        &&& self.reserved_3 == 0
        &&& self.reserved_4 == 0
        &&& self.io_map_base_address == 0
        &&& forall|i: int| 0 <= i < 3 ==> (#[trigger] self.privileged_stack_table[i])@ == 0
        &&& forall|i: int| 0 <= i < 7 ==> (#[trigger] self.interrupt_stack_table[i])@ == 0
    }

    /// A segment with no stack set.
    pub fn new() -> (result: TaskStateSegment)
        ensures
            result.is_blank(),
    {
        TaskStateSegment {
            reserved_1: 0,
            privileged_stack_table: [VirtualAddress::zero();3],
            reserved_2: 0,
            interrupt_stack_table: [VirtualAddress::zero();7],
            reserved_3: 0,
            reserved_4: 0,
            io_map_base_address: 0,
        }
    }

    /// A segment whose double-fault slot points at the top of the stack of
    /// `STACK_SIZE` bytes that begins at `stack_start`, and whose other slots
    /// are zero. Stacks grow downwards, so the slot holds the end of the region.
    pub fn with_double_fault_stack(stack_start: VirtualAddress) -> (result: TaskStateSegment)
        requires
            stack_start@ + STACK_SIZE <= usize::MAX,
            spec_is_canonical((stack_start@ + STACK_SIZE) as u64),
        ensures
            result.interrupt_stack_table[DOUBLE_FAULT_STACK_INDEX as int]@ == stack_start@
                + STACK_SIZE,
            result.interrupt_stack_table[DOUBLE_FAULT_STACK_INDEX as int]@ - stack_start@ >= 4096,
            forall|i: int| 1 <= i < 7 ==> (#[trigger] result.interrupt_stack_table[i])@ == 0,
            forall|i: int| 0 <= i < 3 ==> (#[trigger] result.privileged_stack_table[i])@ == 0,
            result.io_map_base_address == 0,
    {
        let mut tss = TaskStateSegment::new();
        let end = stack_start.offset(STACK_SIZE);
        tss.interrupt_stack_table[DOUBLE_FAULT_STACK_INDEX as usize] = end;
        tss
    }
}

} // verus!
