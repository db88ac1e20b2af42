//! The boot information as a whole.
use crate::boot::multiboot_elf_symbols::{ElfSectionHeader, ElfSectionHeaderWrapper, ElfSymbolsTag};
use crate::boot::multiboot_memory_map::MemoryMapTag;
use crate::boot::multiboot_tags::{Tag, TagTypes};
use crate::physical_address::{PhysicalAddress, PHYSICAL_MEMORY_OFFSET};
use core::ops::Range;
use vstd::prelude::*;

verus! {

/// Size in bytes of the tag that ends the boot information.
pub const END_TAG_SIZE: u32 = 8;

/// The boot information: where it lies, its size, and the two tags of it that
/// the kernel reads.
pub struct MultibootHeader {
    /// The virtual address at which the boot information lies.
    pub address: usize,
    pub total_size: u32,
    pub reserved: u32,
    pub memory_map: Option<MemoryMapTag>,
    pub elf_sections: Option<ElfSymbolsTag>,
}

/// Whether `tags`, the headers of the tags of a boot information of
/// `total_size` bytes in their order, end with an end tag where the
/// information ends: the last one is an end tag of 8 bytes, and the 8 bytes of
/// the header of the information and the tags fill the size.
pub open spec fn spec_has_valid_end_tag(total_size: u32, tags: Seq<Tag>) -> bool {
    &&& tags.len() > 0
    &&& tags.last() == (Tag { typ: TagTypes::EndTag, size: END_TAG_SIZE })
    &&& 8 + spec_tags_size(tags.drop_last()) + END_TAG_SIZE == total_size
}

/// The bytes that `tags` take up, each with the padding that makes the next
/// one begin at a multiple of 8.
pub open spec fn spec_tags_size(tags: Seq<Tag>) -> int
    decreases tags.len(),
{
    if tags.len() == 0 {
        0
    } else {
        spec_tags_size(tags.drop_last()) + Tag::spec_stride(tags.last().size)
    }
}

/// The least start and the greatest end of `sections`: no section of them
/// begins before the first or ends after the second, and one begins at the
/// first and one ends at the second.
pub open spec fn spec_is_extent(
    sections: Seq<ElfSectionHeaderWrapper>,
    start: int,
    end: int,
) -> bool {
    &&& forall|i: int|
        0 <= i < sections.len() ==> start <= (#[trigger] sections[i]).spec_start()
            && sections[i].spec_end() <= end
    &&& exists|i: int| 0 <= i < sections.len() && (#[trigger] sections[i]).spec_start() == start
    &&& exists|i: int| 0 <= i < sections.len() && (#[trigger] sections[i]).spec_end() == end
}

/// The least start and the greatest end of `sections`, or `None` if there is
/// no section or one of them ends beyond the addresses of the machine.
pub fn extent(sections: &Vec<ElfSectionHeaderWrapper>) -> (result: Option<(usize, usize)>)
    ensures
        match result {
            Some((start, end)) => spec_is_extent(sections@, start as int, end as int),
            None => sections@.len() == 0 || exists|i: int|
                0 <= i < sections@.len() && (#[trigger] sections@[i]).spec_end() > usize::MAX,
        },
{
    if sections.len() == 0 {
        return None;
    }
    let first = sections[0];
    let first_start: usize = first.get_addr().value();
    let first_size: usize = first.get_size();
    if first_size > usize::MAX - first_start {
        return None;
    }
    let mut start: usize = first_start;
    let mut end: usize = first_start + first_size;
    let mut index: usize = 1;
    assert(sections@.take(1)[0] == first);
    while index < sections.len()
        invariant
            1 <= index <= sections@.len(),
            spec_is_extent(sections@.take(index as int), start as int, end as int),
        decreases sections@.len() - index,
    {
        let section = sections[index];
        let section_start: usize = section.get_addr().value();
        let section_size: usize = section.get_size();
        if section_size > usize::MAX - section_start {
            return None;
        }
        let section_end: usize = section_start + section_size;
        let ghost before = sections@.take(index as int);
        let ghost after = sections@.take(index + 1);
        let ghost low = choose|i: int|
            0 <= i < before.len() && (#[trigger] before[i]).spec_start() == start;
        let ghost high = choose|i: int|
            0 <= i < before.len() && (#[trigger] before[i]).spec_end() == end;
        if section_start < start {
            start = section_start;
        }
        if section_end > end {
            end = section_end;
        }
        proof {
            assert(after[low] == before[low] && after[high] == before[high]);
            assert(after[index as int] == section);
            assert forall|i: int| 0 <= i < after.len() implies start <= (#[trigger] after[i]).spec_start()
                && after[i].spec_end() <= end by {
                if i < index {
                    assert(after[i] == before[i]);
                }
            }
        }
        index = index + 1;
    }
    assert(sections@.take(index as int) =~= sections@);
    Some((start, end))
}

impl MultibootHeader {
    /// The boot information that lies at `address`, seen through the headers
    /// of its tags and the two tags that the kernel reads. The address must be
    /// a multiple of 8, the reserved field zero, and the tags must end with an
    /// end tag where the information ends.
    pub fn load(
        address: usize,
        total_size: u32,
        reserved: u32,
        tags: &Vec<Tag>,
        memory_map: Option<MemoryMapTag>,
        elf_sections: Option<ElfSymbolsTag>,
    ) -> (result: MultibootHeader)
        requires
            address % 8 == 0,
            reserved == 0,
            spec_has_valid_end_tag(total_size, tags@),
        ensures
            result.address == address,
            result.total_size == total_size,
            result.reserved == 0,
            result.memory_map == memory_map,
            result.elf_sections == elf_sections,
    {
        MultibootHeader { address, total_size, reserved, memory_map, elf_sections }
    }

    /// Whether `tags` end with an end tag where a boot information of
    /// `total_size` bytes ends.
    pub fn has_valid_end_tag(total_size: u32, tags: &Vec<Tag>) -> (result: bool)
        ensures
            result == spec_has_valid_end_tag(total_size, tags@),
    {
        if tags.len() == 0 {
            return false;
        }
        let last = tags[tags.len() - 1];
        let is_end = match last.typ {
            TagTypes::EndTag => last.size == END_TAG_SIZE,
            _ => false,
        };
        if !is_end {
            return false;
        }
        let mut size: u64 = 0;
        let mut index: usize = 0;
        let count: usize = tags.len() - 1;
        while index < count
            invariant
                index <= count,
                count == tags@.len() - 1,
                size == spec_tags_size(tags@.take(index as int)),
                size <= 2 * u32::MAX + 16,
                size > u32::MAX ==> spec_tags_size(tags@.drop_last()) > u32::MAX,
            decreases count - index,
        {
            proof {
                assert(tags@.take(index + 1).drop_last() =~= tags@.take(index as int));
                lemma_tags_size_grows(tags@.drop_last(), index + 1);
                assert(tags@.drop_last().take(index + 1) =~= tags@.take(index + 1));
            }
            if size > u32::MAX as u64 {
                assert(tags@.take(count as int) =~= tags@.drop_last());
                return false;
            }
            size = size + tags[index].stride();
            index = index + 1;
        }
        assert(tags@.take(index as int) =~= tags@.drop_last());
        8 + size + END_TAG_SIZE as u64 == total_size as u64
    }

    pub fn get_memory_map(&self) -> (result: Option<&MemoryMapTag>)
        ensures
            match (result, self.memory_map) {
                (Some(found), Some(held)) => *found == held,
                (None, None) => true,
                _ => false,
            },
    {
        self.memory_map.as_ref()
    }

    pub fn get_elf_sections(&self) -> (result: Option<&ElfSymbolsTag>)
        ensures
            match (result, self.elf_sections) {
                (Some(found), Some(held)) => *found == held,
                (None, None) => true,
                _ => false,
            },
    {
        self.elf_sections.as_ref()
    }

    /// Whether the kernel image can be placed from the sections: there are
    /// sections, one of them is in use, none of those in use ends beyond the
    /// addresses of the machine, and the first begins in the window of mapped
    /// physical memory.
    pub open spec fn spec_kernel_locatable(&self) -> bool {
        &&& self.elf_sections is Some
        &&& crate::boot::multiboot_elf_symbols::spec_used(self.elf_sections->Some_0.sections@).len()
            > 0
        &&& forall|i: int|
            0 <= i < crate::boot::multiboot_elf_symbols::spec_used(
                self.elf_sections->Some_0.sections@,
            ).len() ==> PHYSICAL_MEMORY_OFFSET <= (
            #[trigger] crate::boot::multiboot_elf_symbols::spec_used(
                self.elf_sections->Some_0.sections@,
            )[i]).spec_start() && crate::boot::multiboot_elf_symbols::spec_used(
                self.elf_sections->Some_0.sections@,
            )[i].spec_end() <= usize::MAX
    }

    /// The physical addresses that the kernel image takes up: from the least
    /// start to the greatest end of its sections in use.
    pub fn get_kernel_location(&self) -> (result: Range<PhysicalAddress>)
        requires
            self.spec_kernel_locatable(),
        ensures
            spec_is_extent(
                crate::boot::multiboot_elf_symbols::spec_used(self.elf_sections->Some_0.sections@),
                result.start@ + PHYSICAL_MEMORY_OFFSET,
                result.end@ + PHYSICAL_MEMORY_OFFSET,
            ),
    {
        let used = match &self.elf_sections {
            Some(elf_sections) => elf_sections.used(),
            None => Vec::new(),
        };
        match extent(&used) {
            Some((kernel_start, kernel_end)) => {
                assert(kernel_start >= PHYSICAL_MEMORY_OFFSET);
                assert(kernel_end >= kernel_start);
                Range {
                    start: PhysicalAddress::new(kernel_start - PHYSICAL_MEMORY_OFFSET),
                    end: PhysicalAddress::new(kernel_end - PHYSICAL_MEMORY_OFFSET),
                }
            },
            None => Range { start: PhysicalAddress::new(0), end: PhysicalAddress::new(0) },
        }
    }

    /// The physical addresses that the kernel image takes up, where the image
    /// can be placed, and `None` where it cannot.
    pub fn find_kernel_location(&self) -> (result: Option<Range<PhysicalAddress>>)
        ensures
            result is Some <==> self.spec_kernel_locatable(),
            result is Some ==> spec_is_extent(
                crate::boot::multiboot_elf_symbols::spec_used(self.elf_sections->Some_0.sections@),
                result->Some_0.start@ + PHYSICAL_MEMORY_OFFSET,
                result->Some_0.end@ + PHYSICAL_MEMORY_OFFSET,
            ),
    {
        let used = match &self.elf_sections {
            Some(elf_sections) => elf_sections.used(),
            None => {
                return None;
            },
        };
        match extent(&used) {
            Some((kernel_start, _)) => {
                if kernel_start >= PHYSICAL_MEMORY_OFFSET {
                    Some(self.get_kernel_location())
                } else {
                    None
                }
            },
            None => None,
        }
    }

    /// The physical addresses that the boot information takes up.
    pub fn get_multiboot_location(&self) -> (result: Range<PhysicalAddress>)
        requires
            self.address >= PHYSICAL_MEMORY_OFFSET,
            self.address + self.total_size <= usize::MAX,
        ensures
            result.start@ == self.address - PHYSICAL_MEMORY_OFFSET,
            result.end@ == result.start@ + self.total_size,
    {
        let multiboot_start = PhysicalAddress::new(self.address - PHYSICAL_MEMORY_OFFSET);
        let multiboot_end = multiboot_start.offset(self.get_size());
        Range { start: multiboot_start, end: multiboot_end }
    }

    pub fn get_size(&self) -> (result: usize)
        ensures
            result == self.total_size,
    {
        self.total_size as usize
    }
}

/// The size of the first tags of a boot information does not go down as more
/// tags are counted.
pub proof fn lemma_tags_size_grows(tags: Seq<Tag>, count: int)
    requires
        0 <= count <= tags.len(),
    ensures
        0 <= spec_tags_size(tags.take(count)) <= spec_tags_size(tags),
    decreases tags.len() - count,
{
    if count == tags.len() {
        assert(tags.take(count) =~= tags);
        lemma_tags_size_nonnegative(tags);
    } else {
        lemma_tags_size_grows(tags, count + 1);
        assert(tags.take(count + 1).drop_last() =~= tags.take(count));
        lemma_tags_size_nonnegative(tags.take(count));
    }
}

pub proof fn lemma_tags_size_nonnegative(tags: Seq<Tag>)
    ensures
        0 <= spec_tags_size(tags),
    decreases tags.len(),
{
    if tags.len() > 0 {
        lemma_tags_size_nonnegative(tags.drop_last());
    }
}

} // verus!
