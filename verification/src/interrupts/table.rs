//! The interrupt descriptor table of 256 vectors.
use crate::descriptor_table_pointer::DescriptorTablePointer;
use crate::interrupts::entry::{HandlerKind, IDTEntry};
use crate::interrupts::entry_options::IDTEntryOptions;
use crate::segment_selector::SegmentSelector;
use crate::virtual_address::VirtualAddress;
use vstd::prelude::*;

verus! {

/// Number of vectors that the processor keeps for its own exceptions; the
/// interrupts of the interrupt controllers follow.
pub const FIRST_INTERRUPT_VECTOR: u8 = 32;

/// Size in bytes of the table as the processor reads it: 256 entries of 16 bytes.
pub const TABLE_SIZE: usize = 4096;

/// The table of all 256 entries, the exceptions of the processor by name.
pub struct InterruptDescriptorTable {
    pub divide_by_zero_error: IDTEntry,
    pub debug: IDTEntry,
    pub non_maskable_interrupt: IDTEntry,
    pub breakpoint: IDTEntry,
    pub overflow: IDTEntry,
    pub bound_range_exceeded: IDTEntry,
    pub invalid_opcode: IDTEntry,
    pub device_not_available: IDTEntry,
    pub double_fault: IDTEntry,
    pub coprocessor_segment_overrun: IDTEntry,
    pub invalid_tss: IDTEntry,
    pub segment_not_present: IDTEntry,
    pub stack_segment_fault: IDTEntry,
    pub general_protection_fault: IDTEntry,
    pub page_fault: IDTEntry,
    /// Vector 15, which the processor reserves.
    pub reserved_1: IDTEntry,
    pub x87_floating_point: IDTEntry,
    pub alignment_check: IDTEntry,
    pub machine_check: IDTEntry,
    pub simd_floating_point: IDTEntry,
    pub virtualization: IDTEntry,
    /// Vectors 21 to 29, which the processor reserves.
    pub reserved_2: [IDTEntry; 9],
    pub security_exception: IDTEntry,
    /// Vector 31, which the processor reserves.
    pub reserved_3: IDTEntry,
    /// Vectors 32 to 255: the interrupts of the interrupt controllers come first.
    pub interrupts: [IDTEntry; 224],
}

/// The interrupts that the interrupt controllers raise, numbered from the first
/// vector after the exceptions.
#[derive(Clone, Copy, Debug, PartialEq, Eq, Structural)]
pub enum InterruptType {
    /// The timer: the first line of the first controller.
    Timer,
    Keyboard,
}

impl InterruptType {
    /// The line of the interrupt, which is its place among `interrupts`.
    pub open spec fn spec_as_usize(&self) -> usize {
        match self {
            InterruptType::Timer => 0,
            InterruptType::Keyboard => 1,
        }
    }

    pub fn as_usize(&self) -> (result: usize)
        ensures
            result == self.spec_as_usize(),
    {
        match self {
            InterruptType::Timer => 0,
            InterruptType::Keyboard => 1,
        }
    }
}

/// The calling convention of the handler of `vector`.
pub open spec fn spec_vector_kind(vector: int) -> HandlerKind {
    if vector == 8 {
        HandlerKind::NonReturnHandlerFuncWithErrorCode
    }     else if vector == 10 {
        HandlerKind::HandlerFuncWithErrorCode
    }     else if vector == 11 {
        HandlerKind::HandlerFuncWithErrorCode
    }     else if vector == 12 {
        HandlerKind::HandlerFuncWithErrorCode
    }     else if vector == 13 {
        HandlerKind::HandlerFuncWithErrorCode
    }     else if vector == 14 {
        HandlerKind::PageFaultHandlerFunc
    }     else if vector == 17 {
        HandlerKind::HandlerFuncWithErrorCode
    }     else if vector == 18 {
        HandlerKind::NonReturnHandlerFunc
    }     else if vector == 30 {
        HandlerKind::HandlerFuncWithErrorCode
    } else {
        HandlerKind::HandlerFunc
    }
}

impl InterruptDescriptorTable {
    /// The entry of `vector`, for a vector from 0 to 255.
    pub open spec fn spec_entry(&self, vector: int) -> IDTEntry {
        if vector == 0 {
            self.divide_by_zero_error
        }         else if vector == 1 {
            self.debug
        }         else if vector == 2 {
            self.non_maskable_interrupt
        }         else if vector == 3 {
            self.breakpoint
        }         else if vector == 4 {
            self.overflow
        }         else if vector == 5 {
            self.bound_range_exceeded
        }         else if vector == 6 {
            self.invalid_opcode
        }         else if vector == 7 {
            self.device_not_available
        }         else if vector == 8 {
            self.double_fault
        }         else if vector == 9 {
            self.coprocessor_segment_overrun
        }         else if vector == 10 {
            self.invalid_tss
        }         else if vector == 11 {
            self.segment_not_present
        }         else if vector == 12 {
            self.stack_segment_fault
        }         else if vector == 13 {
            self.general_protection_fault
        }         else if vector == 14 {
            self.page_fault
        }         else if vector == 15 {
            self.reserved_1
        }         else if vector == 16 {
            self.x87_floating_point
        }         else if vector == 17 {
            self.alignment_check
        }         else if vector == 18 {
            self.machine_check
        }         else if vector == 19 {
            self.simd_floating_point
        }         else if vector == 20 {
            self.virtualization
        } else if vector <= 29 {
            self.reserved_2[vector - 21]
        } else if vector == 30 {
            self.security_exception
        } else if vector == 31 {
            self.reserved_3
        } else {
            self.interrupts[vector - 32]
        }
    }

    /// A table in which every vector is missing: none is present, so that the
    /// processor faults on a vector without a handler.
    pub fn new() -> (result: InterruptDescriptorTable)
        ensures
            forall|vector: int|
                0 <= vector < 256 ==> (#[trigger] result.spec_entry(vector)).is_missing(
                    spec_vector_kind(vector),
                ),
    {
        InterruptDescriptorTable {
            divide_by_zero_error: IDTEntry::missing(HandlerKind::HandlerFunc),
            debug: IDTEntry::missing(HandlerKind::HandlerFunc),
            non_maskable_interrupt: IDTEntry::missing(HandlerKind::HandlerFunc),
            breakpoint: IDTEntry::missing(HandlerKind::HandlerFunc),
            overflow: IDTEntry::missing(HandlerKind::HandlerFunc),
            bound_range_exceeded: IDTEntry::missing(HandlerKind::HandlerFunc),
            invalid_opcode: IDTEntry::missing(HandlerKind::HandlerFunc),
            device_not_available: IDTEntry::missing(HandlerKind::HandlerFunc),
            double_fault: IDTEntry::missing(HandlerKind::NonReturnHandlerFuncWithErrorCode),
            coprocessor_segment_overrun: IDTEntry::missing(HandlerKind::HandlerFunc),
            invalid_tss: IDTEntry::missing(HandlerKind::HandlerFuncWithErrorCode),
            segment_not_present: IDTEntry::missing(HandlerKind::HandlerFuncWithErrorCode),
            stack_segment_fault: IDTEntry::missing(HandlerKind::HandlerFuncWithErrorCode),
            general_protection_fault: IDTEntry::missing(HandlerKind::HandlerFuncWithErrorCode),
            page_fault: IDTEntry::missing(HandlerKind::PageFaultHandlerFunc),
            reserved_1: IDTEntry::missing(HandlerKind::HandlerFunc),
            x87_floating_point: IDTEntry::missing(HandlerKind::HandlerFunc),
            alignment_check: IDTEntry::missing(HandlerKind::HandlerFuncWithErrorCode),
            machine_check: IDTEntry::missing(HandlerKind::NonReturnHandlerFunc),
            simd_floating_point: IDTEntry::missing(HandlerKind::HandlerFunc),
            virtualization: IDTEntry::missing(HandlerKind::HandlerFunc),
            reserved_2: [IDTEntry::missing(HandlerKind::HandlerFunc);9],
            security_exception: IDTEntry::missing(HandlerKind::HandlerFuncWithErrorCode),
            reserved_3: IDTEntry::missing(HandlerKind::HandlerFunc),
            interrupts: [IDTEntry::missing(HandlerKind::HandlerFunc);224],
        }
    }

    /// The entry of `vector`.
    pub fn entry(&self, vector: u8) -> (result: IDTEntry)
        ensures
            result == self.spec_entry(vector as int),
    {
        if vector == 0 {
            self.divide_by_zero_error
        }         else if vector == 1 {
            self.debug
        }         else if vector == 2 {
            self.non_maskable_interrupt
        }         else if vector == 3 {
            self.breakpoint
        }         else if vector == 4 {
            self.overflow
        }         else if vector == 5 {
            self.bound_range_exceeded
        }         else if vector == 6 {
            self.invalid_opcode
        }         else if vector == 7 {
            self.device_not_available
        }         else if vector == 8 {
            self.double_fault
        }         else if vector == 9 {
            self.coprocessor_segment_overrun
        }         else if vector == 10 {
            self.invalid_tss
        }         else if vector == 11 {
            self.segment_not_present
        }         else if vector == 12 {
            self.stack_segment_fault
        }         else if vector == 13 {
            self.general_protection_fault
        }         else if vector == 14 {
            self.page_fault
        }         else if vector == 15 {
            self.reserved_1
        }         else if vector == 16 {
            self.x87_floating_point
        }         else if vector == 17 {
            self.alignment_check
        }         else if vector == 18 {
            self.machine_check
        }         else if vector == 19 {
            self.simd_floating_point
        }         else if vector == 20 {
            self.virtualization
        } else if vector <= 29 {
            self.reserved_2[vector as usize - 21]
        } else if vector == 30 {
            self.security_exception
        } else if vector == 31 {
            self.reserved_3
        } else {
            self.interrupts[vector as usize - 32]
        }
    }

    /// The entry of `vector`, to change it in place. No other entry changes.
    pub fn entry_mut(&mut self, vector: u8) -> (result: &mut IDTEntry)
        ensures
            *result == old(self).spec_entry(vector as int),
            final(self).spec_entry(vector as int) == *final(result),
            forall|other: int|
                0 <= other < 256 && other != vector ==> #[trigger] final(self).spec_entry(other)
                    == old(self).spec_entry(other),
    {
        if vector == 0 {
            &mut self.divide_by_zero_error
        }         else if vector == 1 {
            &mut self.debug
        }         else if vector == 2 {
            &mut self.non_maskable_interrupt
        }         else if vector == 3 {
            &mut self.breakpoint
        }         else if vector == 4 {
            &mut self.overflow
        }         else if vector == 5 {
            &mut self.bound_range_exceeded
        }         else if vector == 6 {
            &mut self.invalid_opcode
        }         else if vector == 7 {
            &mut self.device_not_available
        }         else if vector == 8 {
            &mut self.double_fault
        }         else if vector == 9 {
            &mut self.coprocessor_segment_overrun
        }         else if vector == 10 {
            &mut self.invalid_tss
        }         else if vector == 11 {
            &mut self.segment_not_present
        }         else if vector == 12 {
            &mut self.stack_segment_fault
        }         else if vector == 13 {
            &mut self.general_protection_fault
        }         else if vector == 14 {
            &mut self.page_fault
        }         else if vector == 15 {
            &mut self.reserved_1
        }         else if vector == 16 {
            &mut self.x87_floating_point
        }         else if vector == 17 {
            &mut self.alignment_check
        }         else if vector == 18 {
            &mut self.machine_check
        }         else if vector == 19 {
            &mut self.simd_floating_point
        }         else if vector == 20 {
            &mut self.virtualization
        } else if vector <= 29 {
            &mut self.reserved_2[vector as usize - 21]
        } else if vector == 30 {
            &mut self.security_exception
        } else if vector == 31 {
            &mut self.reserved_3
        } else {
            &mut self.interrupts[vector as usize - 32]
        }
    }

    /// The entry of an interrupt of the interrupt controllers, to change it in
    /// place.
    pub fn interrupt_mut(&mut self, index: InterruptType) -> (result: &mut IDTEntry)
        ensures
            *result == old(self).spec_entry(32 + index.spec_as_usize()),
            final(self).spec_entry(32 + index.spec_as_usize()) == *final(result),
            forall|other: int|
                0 <= other < 256 && other != 32 + index.spec_as_usize()
                    ==> #[trigger] final(self).spec_entry(other) == old(self).spec_entry(other),
    {
        let vector: u8 = match index {
            InterruptType::Timer => 32,
            InterruptType::Keyboard => 33,
        };
        self.entry_mut(vector)
    }

    /// Installs `handler` for `vector`, to run in `code_segment`, and hands out
    /// the options of the entry. The entry is present from now on; every other
    /// entry stays as it was.
    pub fn set_handler(&mut self, vector: u8, code_segment: SegmentSelector, handler: u64) -> (result:
        &mut IDTEntryOptions)
        ensures
            result@ == 0x8e00,
            result.spec_is_present(),
            final(self).spec_entry(vector as int).is_configured(code_segment, handler),
            final(self).spec_entry(vector as int).spec_options() == *final(result),
            final(self).spec_entry(vector as int).spec_kind() == old(self).spec_entry(
                vector as int,
            ).spec_kind(),
            forall|other: int|
                0 <= other < 256 && other != vector ==> #[trigger] final(self).spec_entry(other)
                    == old(self).spec_entry(other),
    {
        self.entry_mut(vector).set_handler(code_segment, handler)
    }

    /// The operand with which a table that lies at `base` is loaded.
    pub fn pointer(&self, base: VirtualAddress) -> (result: DescriptorTablePointer)
        ensures
            result.base == base,
            result.limit == TABLE_SIZE - 1,
    {
        DescriptorTablePointer { base, limit: (TABLE_SIZE - 1) as u16 }
    }
}

} // verus!
