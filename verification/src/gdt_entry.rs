//! Segment descriptors, in the 8-byte layout that the processor reads.
use crate::task_state_segment::TSS_SIZE;
use vstd::prelude::*;

verus! {

pub const CONFORMING_BIT: u64 = 0x0000_0400_0000_0000;

pub const EXECUTABLE_BIT: u64 = 0x0000_0800_0000_0000;

pub const DESCRIPTOR_TYPE: u64 = 0x0000_1000_0000_0000;

pub const PRIVILEGE_LEVEL_BIT_0: u64 = 0x0000_2000_0000_0000;

pub const PRIVILEGE_LEVEL_BIT_1: u64 = 0x0000_4000_0000_0000;

pub const PRESENT_BIT: u64 = 0x0000_8000_0000_0000;

pub const CODE_SEGMENT_BIT: u64 = 0x0020_0000_0000_0000;

/// One 8-byte slot of the descriptor table.
#[derive(Clone, Copy, Debug, PartialEq, Eq, Structural)]
pub struct Entry(u64);

impl View for Entry {
    type V = u64;

    closed spec fn view(&self) -> u64 {
        self.0
    }
}

/// Bits 0 to 31 of the base address that a descriptor holds: bits 16 to 39 and
/// 56 to 63 of the descriptor.
pub open spec fn spec_base(descriptor: u64) -> u64 {
    ((descriptor >> 16) & 0xff_ffff) | (((descriptor >> 56) & 0xff) << 24)
}

/// The 20-bit limit that a descriptor holds: bits 0 to 15 and 48 to 51 of it.
pub open spec fn spec_limit(descriptor: u64) -> u64 {
    (descriptor & 0xffff) | (((descriptor >> 48) & 0xf) << 16)
}

/// The access byte of a descriptor: bits 40 to 47.
pub open spec fn spec_access(descriptor: u64) -> u64 {
    (descriptor >> 40) & 0xff
}

/// The flag nibble of a descriptor: bits 52 to 55.
pub open spec fn spec_flags(descriptor: u64) -> u64 {
    (descriptor >> 52) & 0xf
}

/// The low half of the descriptor of a task state segment at `base`.
pub open spec fn spec_tss_low(base: u64) -> u64 {
    ((base & 0xffff) << 16) | (((base >> 16) & 0xff) << 32) | (((base >> 24) & 0xff) << 56) | (((
    TSS_SIZE - 1) as u64) & 0xffff) | (0x89u64 << 40)
}

impl Entry {
    pub fn empty() -> (result: Entry)
        ensures
            result@ == 0,
    {
        Entry(0)
    }

    /// The descriptor that slot 0 of every table must hold.
    pub fn null_segment() -> (result: Entry)
        ensures
            result@ == 0,
    {
        Entry::empty()
    }

    /// The 64-bit code segment of the kernel: present, ring 0, executable.
    pub fn kernel_code_segment() -> (result: Entry)
        ensures
            result@ == EXECUTABLE_BIT | DESCRIPTOR_TYPE | PRESENT_BIT | CODE_SEGMENT_BIT,
            result@ == 0x0020_9800_0000_0000,
            spec_access(result@) == 0x98,
            spec_flags(result@) == 0x2,
            spec_base(result@) == 0,
            spec_limit(result@) == 0,
    {
        let mut entry = Entry::empty();
        entry.0 = entry.0 | EXECUTABLE_BIT;
        entry.0 = entry.0 | DESCRIPTOR_TYPE;
        entry.0 = entry.0 | PRESENT_BIT;
        entry.0 = entry.0 | CODE_SEGMENT_BIT;
        assert({
            let v = 0u64 | 0x0000_0800_0000_0000 | 0x0000_1000_0000_0000 | 0x0000_8000_0000_0000
                | 0x0020_0000_0000_0000;
            &&& v == 0x0020_9800_0000_0000
            &&& v == 0x0000_0800_0000_0000u64 | 0x0000_1000_0000_0000 | 0x0000_8000_0000_0000
                | 0x0020_0000_0000_0000
            &&& (v >> 40) & 0xff == 0x98
            &&& (v >> 52) & 0xf == 0x2
            &&& ((v >> 16) & 0xff_ffff) | (((v >> 56) & 0xff) << 24) == 0
            &&& (v & 0xffff) | (((v >> 48) & 0xf) << 16) == 0
        }) by (bit_vector);
        entry
    }

    /// The two adjacent descriptors of the task state segment that lies at
    /// `base`: a system descriptor is twice as wide as the others. The first
    /// holds bits 0 to 31 of the base, the limit and the access byte of a
    /// present, available 64-bit TSS; the second holds bits 32 to 63 of the base.
    pub fn tss_segment(base: u64) -> (result: [Entry; 2])
        ensures
            result[0]@ == spec_tss_low(base),
            result[1]@ == base >> 32,
            spec_base(result[0]@) | (result[1]@ << 32) == base,
            spec_limit(result[0]@) == TSS_SIZE - 1,
            spec_access(result[0]@) == 0x89,
            spec_flags(result[0]@) == 0,
    {
        let mut low_entry = Entry::empty();
        let mut high_entry = Entry::empty();

        low_entry.0 = low_entry.0 | ((base << 16) & (0xffff << 16));
        low_entry.0 = low_entry.0 | (((base >> 16) << 32) & (0xff << 32));
        low_entry.0 = low_entry.0 | (((base >> 24) << 56) & (0xff << 56));
        high_entry.0 = high_entry.0 | ((base >> 32) & 0xffff_ffff);

        let size: u64 = TSS_SIZE - 1;
        low_entry.0 = low_entry.0 | (size & 0xffff);
        low_entry.0 = low_entry.0 | (((size >> 16) << 48) & (0xf << 48));

        let access: u64 = 0x89;
        low_entry.0 = low_entry.0 | (access << 40);

        assert({
            let low = 0u64 | ((base << 16) & (0xffffu64 << 16)) | (((base >> 16) << 32) & (0xffu64
                << 32)) | (((base >> 24) << 56) & (0xffu64 << 56)) | (103u64 & 0xffff) | (((103u64
                >> 16) << 48) & (0xfu64 << 48)) | (0x89u64 << 40);
            let high = 0u64 | ((base >> 32) & 0xffff_ffff);
            &&& low == ((base & 0xffff) << 16) | (((base >> 16) & 0xff) << 32) | (((base >> 24)
                & 0xff) << 56) | (103u64 & 0xffff) | (0x89u64 << 40)
            &&& high == base >> 32
            &&& (((low >> 16) & 0xff_ffff) | (((low >> 56) & 0xff) << 24)) | (high << 32) == base
            &&& (low & 0xffff) | (((low >> 48) & 0xf) << 16) == 103
            &&& (low >> 40) & 0xff == 0x89
            &&& (low >> 52) & 0xf == 0
        }) by (bit_vector);
        [low_entry, high_entry]
    }

    pub fn value(&self) -> (result: u64)
        ensures
            result == self@,
    {
        self.0
    }

    /// Bits 0 to 31 of the base address, put together from their two fields.
    pub fn base(&self) -> (result: u64)
        ensures
            result == spec_base(self@),
    {
        ((self.0 >> 16) & 0xff_ffff) | (((self.0 >> 56) & 0xff) << 24)
    }

    /// The limit, put together from its two fields.
    pub fn limit(&self) -> (result: u64)
        ensures
            result == spec_limit(self@),
    {
        (self.0 & 0xffff) | (((self.0 >> 48) & 0xf) << 16)
    }

    /// The access byte: present in bit 7, the privilege level in bits 5 and
    /// 6, the descriptor type in bit 4, executable in bit 3.
    pub fn access(&self) -> (result: u64)
        ensures
            result == spec_access(self@),
    {
        (self.0 >> 40) & 0xff
    }

    /// The flag nibble: granularity in bit 3, size in bit 2, long mode in
    /// bit 1.
    pub fn flags(&self) -> (result: u64)
        ensures
            result == spec_flags(self@),
    {
        (self.0 >> 52) & 0xf
    }
}

} // verus!
