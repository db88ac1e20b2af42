//! The small interrupt table: the first 16 vectors only.
use crate::descriptor_table_pointer::DescriptorTablePointer;
use crate::interrupts::entry::{HandlerKind, IDTEntry};
use crate::interrupts::interrupt_types::IDTType;
use crate::segment_selector::SegmentSelector;
use crate::virtual_address::VirtualAddress;
use vstd::prelude::*;

verus! {

/// A table of the first 16 vectors.
pub struct IDT(pub [IDTEntry; 16]);

impl IDT {
    /// A table in which every vector is missing.
    pub fn new() -> (result: IDT)
        ensures
            forall|vector: int|
                0 <= vector < 16 ==> (#[trigger] result.0[vector]).is_missing(
                    HandlerKind::HandlerFunc,
                ),
    {
        IDT([IDTEntry::missing(HandlerKind::HandlerFunc);16])
    }

    /// Installs `handler` for the exception `entry`, to run in `code_segment`,
    /// and hands out the entry. Every other entry stays as it was.
    pub fn set_handler(&mut self, entry: IDTType, code_segment: SegmentSelector, handler: u64) -> (result:
        &mut IDTEntry)
        ensures
            result.is_configured(code_segment, handler),
            result.spec_options()@ == 0x8e00,
            result.spec_options().spec_is_present(),
            final(self).0[entry.spec_vector() as int] == *final(result),
            forall|other: int|
                0 <= other < 16 && other != entry.spec_vector() ==> #[trigger] final(self).0[other]
                    == old(self).0[other],
    {
        let vector = entry.vector();
        self.0[vector] = IDTEntry::new(code_segment, handler);
        &mut self.0[vector]
    }

    /// The operand with which a table that lies at `base` is loaded.
    pub fn pointer(&self, base: VirtualAddress) -> (result: DescriptorTablePointer)
        ensures
            result.base == base,
            result.limit == 255,
    {
        DescriptorTablePointer { base, limit: 255 }
    }
}

} // verus!
