//! What is computed from and for the registers of the processor.
use vstd::prelude::*;

verus! {

/// Number of the model-specific register that holds the extended features.
pub const IA32_EFER: u32 = 0xc0000080;

/// The bit of `IA32_EFER` that switches the no-execute flag of pages on.
pub const NXE_BIT: u64 = 0x800;

/// The bit of CR0 that makes the kernel, too, obey the write protection of
/// pages.
pub const WRITE_PROTECT: u64 = 0x10000;

/// The masks of the bits of the flags register.
#[derive(Clone, Copy, Debug, PartialEq, Eq, Structural)]
pub enum FlagMask {
    InterruptEnable,
}

impl FlagMask {
    pub open spec fn spec_get_mask(&self) -> u64 {
        match self {
            FlagMask::InterruptEnable => 0x0200,
        }
    }

    pub fn get_mask(&self) -> (result: u64)
        ensures
            result == self.spec_get_mask(),
    {
        match self {
            FlagMask::InterruptEnable => 0x0200,
        }
    }
}

/// The value to write to `IA32_EFER` when `efer` was read from it: the same
/// with the no-execute bit set.
pub fn enable_nxe_bit(efer: u64) -> (result: u64)
    ensures
        result == efer | NXE_BIT,
{
    efer | NXE_BIT
}

/// The value to write to CR0 when `cr0` was read from it: the same with the
/// write-protect bit set.
pub fn enable_write_protect_bit(cr0: u64) -> (result: u64)
    ensures
        result == cr0 | WRITE_PROTECT,
{
    cr0 | WRITE_PROTECT
}

/// Whether the flags register `flags` has interrupts switched on: bit 9.
pub fn are_interrupts_enabled(flags: u64) -> (result: bool)
    ensures
        result == (flags & 0x0200 != 0),
{
    let interrupt_enable = flags & FlagMask::InterruptEnable.get_mask();
    interrupt_enable != 0
}

/// The two halves of `value`, low half first, as the instruction that writes
/// a model-specific register takes them.
pub fn wrmsr(value: u64) -> (result: (u32, u32))
    ensures
        result.0 == value as u32,
        result.1 == (value >> 32) as u32,
        rdmsr_value(result.1, result.0) == value,
{
    let low = value as u32;
    let high = (value >> 32) as u32;
    assert((((value >> 32) as u32) as u64) << 32 | ((value as u32) as u64) == value)
        by (bit_vector);
    (low, high)
}

/// The value of a model-specific register whose halves were read as `high`
/// and `low`.
pub open spec fn rdmsr_value(high: u32, low: u32) -> u64 {
    ((high as u64) << 32) | (low as u64)
}

/// Puts the two halves that the instruction that reads a model-specific
/// register gives together.
pub fn rdmsr(high: u32, low: u32) -> (result: u64)
    ensures
        result == rdmsr_value(high, low),
{
    ((high as u64) << 32) | (low as u64)
}

} // verus!
