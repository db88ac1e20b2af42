//! Physical memory addresses.
use crate::virtual_address::{spec_is_canonical, VirtualAddress};
use vstd::prelude::*;

verus! {

/// Distance between a physical address and the virtual address at which the
/// kernel sees it.
pub const PHYSICAL_MEMORY_OFFSET: usize = 0xC0000000;

/// Size of one page of memory in bytes.
pub const PAGE_SIZE: usize = 4096;

/// An address in physical memory.
#[derive(Clone, Copy, Debug, PartialEq, Eq, Structural, PartialOrd, Ord)]
pub struct PhysicalAddress(usize);

impl View for PhysicalAddress {
    type V = usize;

    closed spec fn view(&self) -> usize {
        self.0
    }
}

impl PhysicalAddress {
    /// The address with the value `raw`, for a `raw` that fits.
    pub closed spec fn spec_from_raw(raw: int) -> PhysicalAddress {
        PhysicalAddress(raw as usize)
    }

    pub proof fn lemma_from_raw(raw: int)
        requires
            0 <= raw <= usize::MAX,
        ensures
            Self::spec_from_raw(raw)@ == raw,
    {
    }

    /// The virtual address under which this physical address is mapped.
    pub open spec fn spec_get_virtual_address(self) -> int {
        self@ + PHYSICAL_MEMORY_OFFSET
    }

    /// Whether the address has a place in the window of physical memory that is
    /// mapped at `PHYSICAL_MEMORY_OFFSET`.
    pub open spec fn in_mapped_window(self) -> bool {
        self@ + PHYSICAL_MEMORY_OFFSET <= usize::MAX && spec_is_canonical(
            (self@ + PHYSICAL_MEMORY_OFFSET) as u64,
        )
    }

    /// The smallest multiple of the page size that is not below `address`.
    pub open spec fn spec_round_up(address: int) -> int {
        if address % 4096 == 0 {
            address
        } else {
            address - address % 4096 + 4096
        }
    }

    pub fn new(address: usize) -> (result: PhysicalAddress)
        ensures
            result@ == address,
    {
        PhysicalAddress(address)
    }

    /// The address that stands for "no address": the largest one.
    pub fn invalid() -> (result: PhysicalAddress)
        ensures
            result@ == usize::MAX,
    {
        PhysicalAddress(usize::MAX)
    }

    pub fn from_64bit(address: u64) -> (result: PhysicalAddress)
        requires
            address <= usize::MAX,
        ensures
            result@ == address,
    {
        PhysicalAddress(address as usize)
    }

    pub fn from_32bit(address: u32) -> (result: PhysicalAddress)
        ensures
            result@ == address,
    {
        PhysicalAddress(address as usize)
    }

    pub fn value(&self) -> (result: usize)
        ensures
            result == self@,
    {
        self.0
    }

    pub fn get_virtual_address(&self) -> (result: VirtualAddress)
        requires
            self.in_mapped_window(),
        ensures
            result@ == self.spec_get_virtual_address(),
            result == VirtualAddress::spec_from_raw(self.spec_get_virtual_address()),
            result.spec_get_physical_address() == self@,
    {
        VirtualAddress::from_canonical(self.0 + PHYSICAL_MEMORY_OFFSET)
    }

    /// The address `rhs` bytes further on.
    pub fn offset(self, rhs: usize) -> (result: PhysicalAddress)
        requires
            self@ + rhs <= usize::MAX,
        ensures
            result@ == self@ + rhs,
    {
        PhysicalAddress(self.0 + rhs)
    }

    /// Moves the address `rhs` bytes further on.
    pub fn advance(&mut self, rhs: usize)
        requires
            old(self)@ + rhs <= usize::MAX,
        ensures
            final(self)@ == old(self)@ + rhs,
    {
        self.0 = self.0 + rhs;
    }

    /// The start of the first page that begins at or after this address.
    pub fn round_up(&self) -> (result: PhysicalAddress)
        requires
            Self::spec_round_up(self@ as int) <= usize::MAX,
        ensures
            result@ == Self::spec_round_up(self@ as int),
            result@ % 4096 == 0,
            self@ <= result@ < self@ + 4096,
    {
        let rest: usize = self.0 % PAGE_SIZE;
        if rest == 0 {
            PhysicalAddress(self.0)
        } else {
            PhysicalAddress(self.0 - rest + PAGE_SIZE)
        }
    }

    /// The start of the page that holds this address.
    pub fn round_down(&self) -> (result: PhysicalAddress)
        ensures
            result@ == self@ - self@ % 4096,
            result@ % 4096 == 0,
            result@ <= self@ < result@ + 4096,
    {
        PhysicalAddress(self.0 - self.0 % PAGE_SIZE)
    }

    /// Addresses of the same value are the same address.
    pub proof fn lemma_view_injective(self, other: PhysicalAddress)
        ensures
            (self@ == other@) == (self == other),
    {
    }
}

impl core::ops::Add<usize> for PhysicalAddress {
    type Output = PhysicalAddress;

    /// The address `rhs` bytes further on.
    fn add(self, rhs: usize) -> (result: PhysicalAddress) {
        PhysicalAddress(self.0 + rhs)
    }
}

impl vstd::std_specs::ops::AddSpecImpl<usize> for PhysicalAddress {
    open spec fn obeys_add_spec() -> bool {
        true
    }

    open spec fn add_req(self, rhs: usize) -> bool {
        self@ + rhs <= usize::MAX
    }

    open spec fn add_spec(self, rhs: usize) -> PhysicalAddress {
        PhysicalAddress::spec_from_raw(self@ + rhs)
    }
}

/// Translating a physical address of the mapped window to its virtual address
/// and back gives the address that one started from.
pub proof fn lemma_physical_virtual_round_trip(p: PhysicalAddress)
    requires
        p.in_mapped_window(),
    ensures
        VirtualAddress::spec_from_raw(p.spec_get_virtual_address()).spec_get_physical_address()
            == p@,
{
    VirtualAddress::lemma_from_raw(p.spec_get_virtual_address());
}

} // verus!
