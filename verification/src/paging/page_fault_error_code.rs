//! The error code that the processor pushes on a page fault.
use vstd::prelude::*;

verus! {

/// The fault came from a page that is present: access to it was not allowed.
pub const PROTECTION_VIOLATION: u64 = 1;

/// The access that caused the fault was a write.
pub const CAUSED_BY_WRITE: u64 = 2;

/// The access happened in user mode.
pub const USER_MODE: u64 = 4;

/// A reserved bit was set in an entry of a page table.
pub const MALFORMED_TABLE: u64 = 8;

/// The error code of a page fault.
#[derive(Clone, Copy, Debug, PartialEq, Eq, Structural)]
pub struct PageFaultErrorCode(pub u64);

/// What the error code of a page fault says, bit by bit.
#[derive(Clone, Copy, Debug, PartialEq, Eq, Structural)]
pub struct PageFaultCause {
    pub protection_violation: bool,
    pub caused_by_write: bool,
    pub user_mode: bool,
    pub malformed_table: bool,
}

impl PageFaultErrorCode {
    /// The four facets of the code: bits 0 to 3.
    pub open spec fn spec_decode(self) -> PageFaultCause {
        PageFaultCause {
            protection_violation: self.0 & PROTECTION_VIOLATION != 0,
            caused_by_write: self.0 & CAUSED_BY_WRITE != 0,
            user_mode: self.0 & USER_MODE != 0,
            malformed_table: self.0 & MALFORMED_TABLE != 0,
        }
    }

    pub fn new(code: u64) -> (result: PageFaultErrorCode)
        ensures
            result.0 == code,
    {
        PageFaultErrorCode(code)
    }

    pub fn decode(&self) -> (result: PageFaultCause)
        ensures
            result == self.spec_decode(),
    {
        PageFaultCause {
            protection_violation: self.0 & PROTECTION_VIOLATION != 0,
            caused_by_write: self.0 & CAUSED_BY_WRITE != 0,
            user_mode: self.0 & USER_MODE != 0,
            malformed_table: self.0 & MALFORMED_TABLE != 0,
        }
    }

    /// The four facets as 0 or 1, in the order protection violation, write,
    /// user mode, malformed table: what a report of the fault shows.
    pub fn fields(&self) -> (result: [u64; 4])
        ensures
            result[0] == self.0 & PROTECTION_VIOLATION,
            result[1] == (self.0 & CAUSED_BY_WRITE) >> 1,
            result[2] == (self.0 & USER_MODE) >> 2,
            result[3] == (self.0 & MALFORMED_TABLE) >> 3,
            forall|i: int| 0 <= i < 4 ==> result[i] <= 1,
    {
        let code: u64 = self.0;
        assert((code & 1) <= 1 && ((code & 2) >> 1) <= 1 && ((code & 4) >> 2) <= 1 && ((code & 8)
            >> 3) <= 1) by (bit_vector);
        [
            code & PROTECTION_VIOLATION,
            (code & CAUSED_BY_WRITE) >> 1,
            (code & USER_MODE) >> 2,
            (code & MALFORMED_TABLE) >> 3,
        ]
    }
}

} // verus!
