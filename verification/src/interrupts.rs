//! Interrupt descriptors, the tables that hold them, and what the handlers decide.
pub mod entry;
pub mod entry_options;
pub mod table;
pub mod idt;
pub mod interrupt_handler;
pub mod interrupt_stack_frame;
pub mod interrupt_types;

use crate::interrupts::table::InterruptDescriptorTable;
use crate::segment_selector::SegmentSelector;
use crate::task_state_segment::DOUBLE_FAULT_STACK_INDEX;
use vstd::prelude::*;

verus! {

/// The addresses of the handlers that the kernel installs.
#[derive(Clone, Copy, Debug)]
pub struct HandlerAddresses {
    pub divide_by_zero: u64,
    pub breakpoint: u64,
    pub double_fault: u64,
    pub page_fault: u64,
    pub timer: u64,
}

/// The interrupt table of the kernel: handlers for division by zero (vector
/// 0), breakpoint (3), double fault (8), page fault (14) and the timer (32), all
/// to run in `code_segment`; the double fault on the stack that the task state
/// segment keeps for it; every other vector missing.
pub fn init_idt(code_segment: SegmentSelector, handlers: HandlerAddresses) -> (result:
    InterruptDescriptorTable)
    ensures
        result.spec_entry(0).is_configured(code_segment, handlers.divide_by_zero),
        result.spec_entry(3).is_configured(code_segment, handlers.breakpoint),
        result.spec_entry(8).is_configured(code_segment, handlers.double_fault),
        result.spec_entry(14).is_configured(code_segment, handlers.page_fault),
        result.spec_entry(32).is_configured(code_segment, handlers.timer),
        result.spec_entry(0).spec_options()@ == 0x8e00,
        result.spec_entry(3).spec_options()@ == 0x8e00,
        result.spec_entry(14).spec_options()@ == 0x8e00,
        result.spec_entry(32).spec_options()@ == 0x8e00,
        result.spec_entry(8).spec_options()@ == 0x8e01,
        result.spec_entry(8).spec_options().spec_stack_field() == DOUBLE_FAULT_STACK_INDEX + 1,
        forall|vector: int|
            0 <= vector < 256 && vector != 0 && vector != 3 && vector != 8 && vector != 14 && vector
                != 32 ==> !(#[trigger] result.spec_entry(vector)).spec_options().spec_is_present()
                && result.spec_entry(vector).spec_handler() == 0,
{
    let mut idt = InterruptDescriptorTable::new();
    idt.set_handler(0, code_segment, handlers.divide_by_zero);
    idt.set_handler(3, code_segment, handlers.breakpoint);
    let double_fault_options = idt.set_handler(8, code_segment, handlers.double_fault);
    double_fault_options.set_stack_index(DOUBLE_FAULT_STACK_INDEX);
    assert((0x8e00u16 & 0xfff8) | 1 == 0x8e01) by (bit_vector);
    idt.set_handler(14, code_segment, handlers.page_fault);
    idt.set_handler(32, code_segment, handlers.timer);
    idt
}

} // verus!
