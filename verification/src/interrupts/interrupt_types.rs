//! The exceptions for which the small table has a handler.
use vstd::prelude::*;

verus! {

/// Exceptions of the processor, each with the vector that the processor
/// raises for it.
#[derive(Clone, Copy, Debug, PartialEq, Eq, Structural)]
pub enum IDTType {
    DivideByZero,
    Breakpoint,
    DoubleFault,
    PageFault,
}

impl IDTType {
    /// The vector of the exception: 0, 3, 8 and 14.
    pub open spec fn spec_vector(self) -> usize {
        match self {
            IDTType::DivideByZero => 0x00,
            IDTType::Breakpoint => 0x03,
            IDTType::DoubleFault => 0x08,
            IDTType::PageFault => 0x0e,
        }
    }

    pub fn vector(self) -> (result: usize)
        ensures
            result == self.spec_vector(),
            result < 16,
    {
        match self {
            IDTType::DivideByZero => 0x00,
            IDTType::Breakpoint => 0x03,
            IDTType::DoubleFault => 0x08,
            IDTType::PageFault => 0x0e,
        }
    }
}

} // verus!
