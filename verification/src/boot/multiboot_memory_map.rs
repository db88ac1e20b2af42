//! The memory map that the boot loader reports.
use crate::boot::multiboot_tags::TagTypes;
use crate::physical_address::{PhysicalAddress, PAGE_SIZE};
use vstd::prelude::*;

verus! {

/// The kinds of memory area that a boot loader reports.
#[derive(Clone, Copy, Debug, PartialEq, Eq, Structural)]
pub enum MemoryAreaType {
    /// A reserved area that must not be used.
    Reserved,
    /// Available memory free to be used by the kernel.
    Available,
    /// Usable memory holding ACPI information.
    AcpiAvailable,
    /// Reserved memory which needs to be preserved on hibernation.
    ReservedHibernate,
    /// Memory which is occupied by defective RAM modules.
    Defective,
}

/// One area of physical memory: where it begins, how long it is, and the number
/// of its kind.
#[derive(Clone, Copy, Debug, PartialEq, Eq, Structural)]
pub struct MemoryMapEntry {
    pub address: u64,
    pub length: u64,
    pub typ: u32,
    pub zero: u32,
}

impl MemoryMapEntry {
    /// The kind of the area: 1 is available memory, 3, 4 and 5 have a meaning
    /// of their own, and every other number is reserved.
    pub open spec fn spec_typ(&self) -> MemoryAreaType {
        if self.typ == 1 {
            MemoryAreaType::Available
        } else if self.typ == 3 {
            MemoryAreaType::AcpiAvailable
        } else if self.typ == 4 {
            MemoryAreaType::ReservedHibernate
        } else if self.typ == 5 {
            MemoryAreaType::Defective
        } else {
            MemoryAreaType::Reserved
        }
    }

    /// The first address after the area.
    pub open spec fn spec_end(&self) -> int {
        self.address + self.length
    }

    /// Whether the whole area can be addressed.
    pub open spec fn addressable(&self) -> bool {
        self.address + self.length <= usize::MAX
    }

    pub fn new(address: u64, length: u64, typ: u32) -> (result: MemoryMapEntry)
        ensures
            result == (MemoryMapEntry { address, length, typ, zero: 0 }),
    {
        MemoryMapEntry { address, length, typ, zero: 0 }
    }

    pub fn size(&self) -> (result: usize)
        requires
            self.length <= usize::MAX,
        ensures
            result == self.length,
    {
        self.length as usize
    }

    pub fn start(&self) -> (result: PhysicalAddress)
        requires
            self.address <= usize::MAX,
        ensures
            result@ == self.address,
    {
        PhysicalAddress::from_64bit(self.address)
    }

    pub fn end(&self) -> (result: PhysicalAddress)
        requires
            self.addressable(),
        ensures
            result@ == self.spec_end(),
    {
        proof {
            PhysicalAddress::lemma_from_raw(self.spec_end());
        }
        self.start() + self.size()
    }

    /// The pages that the area touches, from the address at which it begins in
    /// steps of a page up to the end of its last page.
    pub fn pages(&self) -> (result: PageIterator)
        requires
            self.addressable(),
            PhysicalAddress::spec_round_up(self.spec_end()) <= usize::MAX,
        ensures
            result.wf(),
            result.spec_current() == self.address,
            result.spec_end() == PhysicalAddress::spec_round_up(self.spec_end()),
    {
        PageIterator { current: self.start(), end: self.end().round_up() }
    }

    pub fn typ(&self) -> (result: MemoryAreaType)
        ensures
            result == self.spec_typ(),
    {
        match self.typ {
            1 => MemoryAreaType::Available,
            3 => MemoryAreaType::AcpiAvailable,
            4 => MemoryAreaType::ReservedHibernate,
            5 => MemoryAreaType::Defective,
            _ => MemoryAreaType::Reserved,
        }
    }
}

/// Steps through the pages of an area.
pub struct PageIterator {
    current: PhysicalAddress,
    end: PhysicalAddress,
}

impl PageIterator {
    /// The address that `next` gives next, if it is before the end.
    pub closed spec fn spec_current(&self) -> int {
        self.current@ as int
    }

    /// The address at which the iterator stops.
    pub closed spec fn spec_end(&self) -> int {
        self.end@ as int
    }

    /// The end is the start of a page.
    pub open spec fn wf(&self) -> bool {
        self.spec_end() % 4096 == 0
    }

    /// The current address, after which the iterator is one page further on;
    /// `None` once the end is reached.
    pub fn next(&mut self) -> (result: Option<PhysicalAddress>)
        requires
            old(self).wf(),
        ensures
            final(self).wf(),
            final(self).spec_end() == old(self).spec_end(),
            match result {
                Some(page) => {
                    &&& old(self).spec_current() < old(self).spec_end()
                    &&& page@ == old(self).spec_current()
                    &&& final(self).spec_current() == old(self).spec_current() + 4096
                },
                None => {
                    &&& old(self).spec_current() >= old(self).spec_end()
                    &&& final(self).spec_current() == old(self).spec_current()
                },
            },
    {
        if self.current.value() < self.end.value() {
            let current = self.current;
            self.current.advance(PAGE_SIZE);
            Some(current)
        } else {
            None
        }
    }
}

/// The tag of the boot information that holds the memory map.
pub struct MemoryMapTag {
    pub typ: TagTypes,
    pub size: u32,
    pub entry_size: u32,
    pub entry_version: u32,
    pub entries: Vec<MemoryMapEntry>,
}

/// The entries of `areas` that are available memory, in their order.
pub open spec fn spec_available(areas: Seq<MemoryMapEntry>) -> Seq<MemoryMapEntry> {
    areas.filter(|area: MemoryMapEntry| area.spec_typ() == MemoryAreaType::Available)
}

impl MemoryMapTag {
    /// The tag of a memory map with the given entries.
    pub fn new(entries: Vec<MemoryMapEntry>) -> (result: MemoryMapTag)
        requires
            16 + 24 * entries@.len() <= u32::MAX,
        ensures
            result.entries@ == entries@,
            result.typ == TagTypes::MemoryMap,
            result.entry_size == 24,
            result.entry_version == 0,
            result.size == 16 + 24 * entries@.len(),
    {
        let size: u32 = (16 + 24 * entries.len()) as u32;
        MemoryMapTag { typ: TagTypes::MemoryMap, size, entry_size: 24, entry_version: 0, entries }
    }

    /// The areas of the map that are available memory, in their order.
    pub fn get_available_memory_areas(&self) -> (result: Vec<MemoryMapEntry>)
        ensures
            result@ == spec_available(self.entries@),
    {
        let mut available: Vec<MemoryMapEntry> = Vec::new();
        let mut index: usize = 0;
        while index < self.entries.len()
            invariant
                index <= self.entries@.len(),
                available@ == spec_available(self.entries@.take(index as int)),
            decreases self.entries@.len() - index,
        {
            let entry = self.entries[index];
            proof {
                reveal(Seq::filter);
                let before = self.entries@.take(index as int);
                assert(self.entries@.take(index + 1).drop_last() =~= before);
            }
            if entry.typ() == MemoryAreaType::Available {
                available.push(entry);
            }
            index = index + 1;
        }
        assert(self.entries@.take(index as int) =~= self.entries@);
        available
    }

    /// All areas of the map, to walk them in their order.
    pub fn get_memory_areas(&self) -> (result: MemoryMapEntryIterator<'_>)
        ensures
            result.spec_areas() == self.entries@,
            result.spec_position() == 0,
            result.wf(),
    {
        MemoryMapEntryIterator::new(self)
    }
}

/// Walks the areas of a memory map in their order.
pub struct MemoryMapEntryIterator<'a> {
    map: &'a MemoryMapTag,
    position: usize,
}

impl<'a> MemoryMapEntryIterator<'a> {
    /// All areas of the map that is walked.
    pub closed spec fn spec_areas(&self) -> Seq<MemoryMapEntry> {
        self.map.entries@
    }

    /// How many areas have been handed out.
    pub closed spec fn spec_position(&self) -> int {
        self.position as int
    }

    /// No more areas have been handed out than the map has.
    pub open spec fn wf(&self) -> bool {
        0 <= self.spec_position() <= self.spec_areas().len()
    }

    pub fn new(map: &'a MemoryMapTag) -> (result: MemoryMapEntryIterator<'a>)
        ensures
            result.spec_areas() == map.entries@,
            result.spec_position() == 0,
            result.wf(),
    {
        MemoryMapEntryIterator { map, position: 0 }
    }

    /// The next area, or `None` when all have been handed out.
    pub fn next(&mut self) -> (result: Option<MemoryMapEntry>)
        requires
            old(self).wf(),
        ensures
            final(self).wf(),
            final(self).spec_areas() == old(self).spec_areas(),
            match result {
                Some(area) => {
                    &&& old(self).spec_position() < old(self).spec_areas().len()
                    &&& area == old(self).spec_areas()[old(self).spec_position()]
                    &&& final(self).spec_position() == old(self).spec_position() + 1
                },
                None => {
                    &&& old(self).spec_position() == old(self).spec_areas().len()
                    &&& final(self).spec_position() == old(self).spec_position()
                },
            },
    {
        if self.position >= self.map.entries.len() {
            return None;
        }
        let current = self.map.entries[self.position];
        self.position = self.position + 1;
        Some(current)
    }
}

} // verus!
