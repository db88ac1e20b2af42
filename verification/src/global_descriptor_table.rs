//! The table of segment descriptors.
use crate::descriptor_table_pointer::DescriptorTablePointer;
use crate::gdt_entry::{spec_tss_low, Entry};
use crate::privilege_level::PrivilegeLevel;
use crate::segment_selector::SegmentSelector;
use crate::virtual_address::VirtualAddress;
use vstd::prelude::*;

verus! {

/// Number of slots in the table.
pub const MAX_ENTRIES: usize = 8;

/// The selectors that the kernel loads once its table is in place.
#[derive(Clone, Copy, Debug)]
pub struct Selectors {
    /// Selects the code segment of the kernel.
    pub cs: SegmentSelector,
    /// Selects the task state segment.
    pub tss: SegmentSelector,
}

/// The table of the kernel for a task state segment that lies at `tss_base`:
/// the null descriptor, the code segment of the kernel, and the two halves of
/// the descriptor of the task state segment, with the selectors of the last
/// two. The table must be loaded before the code segment selector, and the
/// task state segment after both.
pub fn init(tss_base: u64) -> (result: (GlobalDescriptorTable, Selectors))
    ensures
        result.0.wf(),
        result.0@ == seq![0u64, 0x0020_9800_0000_0000u64, spec_tss_low(tss_base), tss_base >> 32],
        result.1.cs.spec_index() == 1,
        result.1.tss.spec_index() == 2,
        result.1.cs.spec_rpl() == 0,
{
    let mut gdt = GlobalDescriptorTable::new();
    gdt.add_entry(Entry::null_segment());
    let cs = gdt.add_entry(Entry::kernel_code_segment());
    let tss = gdt.add_tss(tss_base);
    assert(gdt@ =~= seq![
        0u64,
        0x0020_9800_0000_0000u64,
        spec_tss_low(tss_base),
        tss_base >> 32,
    ]);
    (gdt, Selectors { cs, tss })
}

/// A descriptor table of `MAX_ENTRIES` slots, filled from slot 0 upwards.
pub struct GlobalDescriptorTable {
    table: [Entry; 8],
    next: usize,
}

impl View for GlobalDescriptorTable {
    type V = Seq<u64>;

    /// The descriptors added so far, in the order of their slots.
    closed spec fn view(&self) -> Seq<u64> {
        Seq::new(self.next as nat, |i: int| self.table[i]@)
    }
}

impl GlobalDescriptorTable {
    /// No more descriptors are in use than the table has slots.
    pub closed spec fn wf(&self) -> bool {
        self.next <= MAX_ENTRIES
    }

    pub proof fn lemma_len(&self)
        requires
            self.wf(),
        ensures
            self@.len() <= MAX_ENTRIES,
    {
    }

    /// A table with no descriptor in use.
    pub fn new() -> (result: GlobalDescriptorTable)
        ensures
            result.wf(),
            result@ == Seq::<u64>::empty(),
    {
        let result = GlobalDescriptorTable { table: [Entry::empty();8], next: 0 };
        assert(result@ =~= Seq::<u64>::empty());
        result
    }

    /// Number of descriptors in use.
    pub fn len(&self) -> (result: usize)
        requires
            self.wf(),
        ensures
            result == self@.len(),
            result <= MAX_ENTRIES,
    {
        self.next
    }

    /// Puts `entry` into the first free slot and gives the ring 0 selector of
    /// that slot. The table must have a free slot.
    pub fn add_entry(&mut self, entry: Entry) -> (selector: SegmentSelector)
        requires
            old(self).wf(),
            old(self)@.len() < MAX_ENTRIES,
        ensures
            final(self).wf(),
            final(self)@ == old(self)@.push(entry@),
            selector@ == SegmentSelector::spec_new(old(self)@.len() as u16, PrivilegeLevel::Ring0),
            selector.spec_index() == old(self)@.len(),
            selector.spec_rpl() == 0,
    {
        let index = self.next;
        self.table[index] = entry;
        self.next = index + 1;
        assert(self@ =~= old(self)@.push(entry@));
        SegmentSelector::new(index as u16, PrivilegeLevel::Ring0)
    }

    /// Puts the two halves of the descriptor of the task state segment at
    /// `tss_base` into the next two slots and gives the selector of the first.
    pub fn add_tss(&mut self, tss_base: u64) -> (selector: SegmentSelector)
        requires
            old(self).wf(),
            old(self)@.len() + 1 < MAX_ENTRIES,
        ensures
            final(self).wf(),
            final(self)@ == old(self)@.push(spec_tss_low(tss_base)).push(tss_base >> 32),
            selector@ == SegmentSelector::spec_new(old(self)@.len() as u16, PrivilegeLevel::Ring0),
            selector.spec_index() == old(self)@.len(),
            selector.spec_rpl() == 0,
    {
        let halves = Entry::tss_segment(tss_base);
        let selector = self.add_entry(halves[0]);
        self.add_entry(halves[1]);
        selector
    }

    /// The descriptor in slot `index`.
    pub fn entry(&self, index: usize) -> (result: Entry)
        requires
            self.wf(),
            index < self@.len(),
        ensures
            result@ == self@[index as int],
    {
        self.table[index]
    }

    /// The operand with which a table that lies at `base` is loaded: its limit
    /// is the size of the slots in use, less one. The table must not be empty.
    pub fn pointer(&self, base: VirtualAddress) -> (result: DescriptorTablePointer)
        requires
            self.wf(),
            self@.len() > 0,
        ensures
            result.base == base,
            result.limit == 8 * self@.len() - 1,
    {
        DescriptorTablePointer { base, limit: (8 * self.next - 1) as u16 }
    }
}

} // verus!
