//! What each handler decides. A handler reads what the hardware gives it and
//! answers with what is to be done: the bytes to write to the interrupt
//! controllers and whether the interrupted code goes on.
use crate::interrupts::table::InterruptType;
use crate::paging::page_fault_error_code::{PageFaultCause, PageFaultErrorCode};
use crate::pic::{spec_end_of_interrupt, x86PIC};
use crate::port::PortWrite;
use vstd::prelude::*;

verus! {

/// The port from which the keyboard controller gives its scancodes.
pub const KEYBOARD_CONTROLLER_ADDRESS: u16 = 0x60;

/// How a handler ends.
#[derive(Clone, Copy, Debug, PartialEq, Eq, Structural)]
pub enum Outcome {
    /// The interrupted code goes on.
    Resume,
    /// The machine is halted for good.
    Halt,
}

/// What a key did.
#[derive(Clone, Copy, Debug, PartialEq, Eq, Structural)]
pub enum KeyEvent {
    /// The key with this scancode went down.
    Press(u8),
    /// The key with this scancode came up.
    Release(u8),
}

/// What is known of a page fault.
#[derive(Clone, Copy, Debug, PartialEq, Eq, Structural)]
pub struct PageFaultReport {
    /// The address whose access faulted.
    pub accessed_address: u64,
    pub cause: PageFaultCause,
    pub outcome: Outcome,
}

/// What a scancode says: bit 7 is set when the key came up, and the other
/// bits name the key.
pub open spec fn spec_key_event(scancode: u8) -> KeyEvent {
    if scancode & 0x80 == 0 {
        KeyEvent::Press(scancode)
    } else {
        KeyEvent::Release(scancode & 0x7f)
    }
}

/// A division by zero is fatal.
pub fn divide_by_zero_handler() -> (result: Outcome)
    ensures
        result == Outcome::Halt,
{
    Outcome::Halt
}

/// A breakpoint is reported and the interrupted code goes on.
pub fn breakpoint_handler() -> (result: Outcome)
    ensures
        result == Outcome::Resume,
{
    Outcome::Resume
}

/// A double fault is fatal, whatever its error code.
pub fn double_fault_handler(error_code: u64) -> (result: (u64, Outcome))
    ensures
        result == (error_code, Outcome::Halt),
{
    (error_code, Outcome::Halt)
}

/// A page fault is decoded for the report and is fatal: no page is brought in
/// on demand. `accessed_address` is what the processor holds in CR2.
pub fn page_fault_handler(error_code: PageFaultErrorCode, accessed_address: u64) -> (result:
    PageFaultReport)
    ensures
        result == (PageFaultReport {
            accessed_address,
            cause: error_code.spec_decode(),
            outcome: Outcome::Halt,
        }),
{
    PageFaultReport { accessed_address, cause: error_code.decode(), outcome: Outcome::Halt }
}

/// The timer is acknowledged and the interrupted code goes on.
pub fn timer_handler(pics: &x86PIC) -> (result: (Vec<PortWrite>, Outcome))
    requires
        pics.wf(),
    ensures
        result.0@ == spec_end_of_interrupt(0),
        result.1 == Outcome::Resume,
{
    (pics.send_end_of_interrupt(InterruptType::Timer), Outcome::Resume)
}

/// The scancode read from the keyboard controller is decoded, the keyboard is
/// acknowledged, and the interrupted code goes on.
pub fn keyboard_handler(pics: &x86PIC, scancode: u8) -> (result: (
    KeyEvent,
    Vec<PortWrite>,
    Outcome,
))
    requires
        pics.wf(),
    ensures
        result.0 == spec_key_event(scancode),
        result.1@ == spec_end_of_interrupt(1),
        result.2 == Outcome::Resume,
{
    let event = if scancode & 0x80 == 0 {
        KeyEvent::Press(scancode)
    } else {
        KeyEvent::Release(scancode & 0x7f)
    };
    (event, pics.send_end_of_interrupt(InterruptType::Keyboard), Outcome::Resume)
}

} // verus!
