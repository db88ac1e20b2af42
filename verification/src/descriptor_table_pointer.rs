//! The operand of the instructions that load a descriptor table.
use crate::virtual_address::VirtualAddress;
use vstd::prelude::*;

verus! {

/// Where a descriptor table lies and how long it is.
#[derive(Clone, Copy, Debug)]
pub struct DescriptorTablePointer {
    /// Size of the table in bytes, less one.
    pub limit: u16,
    /// Address of the first byte of the table.
    pub base: VirtualAddress,
}

} // verus!
