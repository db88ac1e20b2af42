//! What the processor pushes on the stack when it enters a handler.
use crate::virt_addr::VirtAddr;
use vstd::prelude::*;

verus! {

/// The state of the interrupted code, as the processor saved it.
#[derive(Clone, Copy, Debug)]
pub struct InterruptStackFrame {
    pub instruction_pointer: VirtAddr,
    pub code_segment: u64,
    pub cpu_flags: u64,
    pub stack_pointer: VirtAddr,
    pub stack_segment: u64,
}

impl InterruptStackFrame {
    /// The five values of the frame in the order in which they lie in memory,
    /// for a report.
    pub fn words(&self) -> (result: [u64; 5])
        ensures
            result[0] == self.instruction_pointer@,
            result[1] == self.code_segment,
            result[2] == self.cpu_flags,
            result[3] == self.stack_pointer@,
            result[4] == self.stack_segment,
    {
        [
            self.instruction_pointer.get(),
            self.code_segment,
            self.cpu_flags,
            self.stack_pointer.get(),
            self.stack_segment,
        ]
    }
}

} // verus!
