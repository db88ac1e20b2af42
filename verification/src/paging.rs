//! Page tables and the faults that they raise.
pub mod page_table_entry;
pub mod frame_arena;
pub mod page_table;
pub mod page_fault_error_code;

use crate::allocator::frame_allocator::{Frame, SimpleFrameAllocator};
use crate::boot::multiboot_elf_symbols::{
    spec_allocated,
    ElfSectionHeader,
    ElfSectionHeaderWrapper,
};
use crate::boot::multiboot_header::MultibootHeader;
use crate::boot::multiboot_memory_map::{spec_available, MemoryMapEntry};
use crate::paging::frame_arena::FrameArena;
use crate::paging::page_table::{
    spec_allocate_table,
    spec_identity_map,
    spec_map,
    Level4,
    MapError,
    PageTable,
    WalkState,
};
use crate::paging::page_table_entry::{spec_with_flag, NO_EXECUTE, PRESENT, WRITABLE};
use crate::physical_address::{PhysicalAddress, PHYSICAL_MEMORY_OFFSET};
use crate::virtual_address::{lemma_lower_half, VirtualAddress};
use vstd::prelude::*;

verus! {

/// The physical address of the text buffer of the screen.
pub const VIDEO_BUFFER: usize = 0xb8000;

/// The end of the physical memory that can be mapped at
/// `PHYSICAL_MEMORY_OFFSET` within the lower half of the address space.
pub const MAPPABLE_END: u64 = 0x7fff_0000_0000;

/// The first of `sections` from `index` on that holds `address`.
pub open spec fn spec_section_for(
    sections: Seq<ElfSectionHeaderWrapper>,
    address: int,
    index: int,
) -> Option<ElfSectionHeaderWrapper>
    decreases sections.len() - index,
{
    if index < 0 || index >= sections.len() {
        None
    } else if sections[index].spec_start() <= address < sections[index].spec_end() {
        Some(sections[index])
    } else {
        spec_section_for(sections, address, index + 1)
    }
}

/// The entry `entry` of a page of physical memory after it has been made
/// present and, where the page lies in `section`, as writable and as
/// executable as that section.
pub open spec fn spec_page_entry(entry: u64, section: Option<ElfSectionHeaderWrapper>) -> u64 {
    let present = spec_with_flag(entry, PRESENT, true);
    match section {
        None => present,
        Some(section) => spec_with_flag(
            spec_with_flag(present, WRITABLE, section.spec_flags().spec_is_writable()),
            NO_EXECUTE,
            !section.spec_flags().spec_is_executable(),
        ),
    }
}

/// Mapping the page of physical memory at `page` to its place above
/// `PHYSICAL_MEMORY_OFFSET`, present, with the flags of the section of
/// `sections` that its virtual address lies in.
pub open spec fn spec_map_page(
    state: WalkState,
    root: usize,
    sections: Seq<ElfSectionHeaderWrapper>,
    page: int,
) -> (WalkState, Result<(), MapError>) {
    let place = page + PHYSICAL_MEMORY_OFFSET;
    let indices = VirtualAddress::spec_from_raw(place).spec_page_table_indices();
    let (mapped, path) = spec_map(state, root, page as usize, indices);
    match path {
        Err(error) => (mapped, Err(error)),
        Ok(path) => (
            WalkState {
                memory: mapped.memory.insert(
                    path.level1,
                    mapped.memory[path.level1].update(
                        indices.3 as int,
                        spec_page_entry(
                            mapped.memory[path.level1][indices.3 as int],
                            spec_section_for(sections, place, 0),
                        ),
                    ),
                ),
                ..mapped
            },
            Ok(()),
        ),
    }
}

/// Mapping the pages from `current` up to `end`, one after the other, up to
/// the first that fails.
pub open spec fn spec_map_pages(
    state: WalkState,
    root: usize,
    sections: Seq<ElfSectionHeaderWrapper>,
    current: int,
    end: int,
) -> (WalkState, Result<(), MapError>)
    decreases end - current + 4096,
{
    if current >= end {
        (state, Ok(()))
    } else if spec_map_page(state, root, sections, current).1 is Err {
        spec_map_page(state, root, sections, current)
    } else {
        spec_map_pages(
            spec_map_page(state, root, sections, current).0,
            root,
            sections,
            current + 4096,
            end,
        )
    }
}

/// Mapping the pages of `area`: from the address at which it begins up to the
/// end of its last page.
pub open spec fn spec_map_area(
    state: WalkState,
    root: usize,
    sections: Seq<ElfSectionHeaderWrapper>,
    area: MemoryMapEntry,
) -> (WalkState, Result<(), MapError>) {
    spec_map_pages(
        state,
        root,
        sections,
        area.address as int,
        PhysicalAddress::spec_round_up(area.spec_end()),
    )
}

/// Whether `area` begins at the start of a page and ends within the memory
/// that can be mapped.
pub open spec fn spec_area_mappable(area: MemoryMapEntry) -> bool {
    &&& area.address % 4096 == 0
    &&& area.spec_end() <= MAPPABLE_END
    &&& area.spec_end() + 4096 + PHYSICAL_MEMORY_OFFSET <= usize::MAX
}

/// Mapping the pages of the areas of `areas` from `index` on, area by area,
/// up to the first page that fails.
pub open spec fn spec_map_areas(
    state: WalkState,
    root: usize,
    sections: Seq<ElfSectionHeaderWrapper>,
    areas: Seq<MemoryMapEntry>,
    index: int,
) -> (WalkState, Result<(), MapError>)
    decreases areas.len() - index,
{
    if index < 0 || index >= areas.len() {
        (state, Ok(()))
    } else if spec_map_area(state, root, sections, areas[index]).1 is Err {
        spec_map_area(state, root, sections, areas[index])
    } else {
        spec_map_areas(
            spec_map_area(state, root, sections, areas[index]).0,
            root,
            sections,
            areas,
            index + 1,
        )
    }
}

/// The new address space of the kernel: a new top table; every page of the
/// available memory `areas` mapped above `PHYSICAL_MEMORY_OFFSET` with the
/// flags of the section of `sections` that it lies in; and the text buffer of
/// the screen and the page at `boot_page` mapped to themselves. Stops at the
/// first step that fails.
pub open spec fn spec_remap_kernel(
    state: WalkState,
    areas: Seq<MemoryMapEntry>,
    sections: Seq<ElfSectionHeaderWrapper>,
    boot_page: usize,
) -> (WalkState, Result<usize, MapError>) {
    let (allocated, root) = spec_allocate_table(state);
    match root {
        Err(error) => (allocated, Err(error)),
        Ok(root) => {
            let (mapped, outcome) = spec_map_areas(allocated, root, sections, areas, 0);
            match outcome {
                Err(error) => (mapped, Err(error)),
                Ok(_) => {
                    let (video, outcome) = spec_identity_map(mapped, root, VIDEO_BUFFER);
                    match outcome {
                        Err(error) => (video, Err(error)),
                        Ok(_) => {
                            let (boot, outcome) = spec_identity_map(video, root, boot_page);
                            match outcome {
                                Err(error) => (boot, Err(error)),
                                Ok(_) => (boot, Ok(root)),
                            }
                        },
                    }
                },
            }
        },
    }
}

/// Whether every available area of `areas` begins at the start of a page and
/// ends within the memory that can be mapped.
pub open spec fn spec_mappable(areas: Seq<MemoryMapEntry>) -> bool {
    forall|i: int| 0 <= i < areas.len() ==> spec_area_mappable(#[trigger] areas[i])
}

/// Whether `area` begins at the start of a page and ends within the memory
/// that can be mapped.
pub fn is_area_mappable(area: &MemoryMapEntry) -> (result: bool)
    ensures
        result == spec_area_mappable(*area),
{
    if area.address % 4096 != 0 || area.address > MAPPABLE_END || area.length > MAPPABLE_END
        - area.address {
        return false;
    }
    let end: u64 = area.address + area.length;
    end <= usize::MAX as u64 && (usize::MAX as u64 - end) >= 4096 + PHYSICAL_MEMORY_OFFSET as u64
}

/// Whether every area of `areas` can be mapped.
pub fn is_mappable(areas: &Vec<MemoryMapEntry>) -> (result: bool)
    ensures
        result == spec_mappable(areas@),
{
    let mut index: usize = 0;
    while index < areas.len()
        invariant
            index <= areas@.len(),
            forall|i: int| 0 <= i < index ==> spec_area_mappable(#[trigger] areas@[i]),
        decreases areas@.len() - index,
    {
        if !is_area_mappable(&areas[index]) {
            return false;
        }
        index = index + 1;
    }
    true
}

/// Whether `remap_kernel` can build the address space from
/// `multiboot_header`: it holds a memory map whose available areas can be
/// mapped and the sections of the kernel, and lies in the lower half of the
/// address space.
pub open spec fn spec_can_remap(multiboot_header: &MultibootHeader) -> bool {
    &&& multiboot_header.memory_map is Some
    &&& multiboot_header.elf_sections is Some
    &&& spec_mappable(spec_available(multiboot_header.memory_map->Some_0.entries@))
    &&& multiboot_header.address < 0x8000_0000_0000
    &&& multiboot_header.address + 4096 <= usize::MAX
}

/// Builds the address space of the kernel as `remap_kernel` does where it
/// can be built from `multiboot_header`, and gives `None` and changes nothing
/// where it cannot.
pub fn try_remap_kernel(
    multiboot_header: &MultibootHeader,
    arena: &mut FrameArena,
    allocator: &mut SimpleFrameAllocator,
) -> (result: Option<Result<PageTable<Level4>, MapError>>)
    requires
        old(arena).wf(),
        old(allocator).wf(),
    ensures
        final(arena).wf(),
        final(allocator).wf(),
        result is Some <==> spec_can_remap(multiboot_header),
        result is None ==> final(arena)@ == old(arena)@ && final(allocator)@ == old(allocator)@,
        result is Some ==> ({
            let before = WalkState { memory: old(arena)@, allocator: old(allocator)@ };
            let after = WalkState { memory: final(arena)@, allocator: final(allocator)@ };
            let expected = spec_remap_kernel(
                before,
                spec_available(multiboot_header.memory_map->Some_0.entries@),
                spec_allocated(multiboot_header.elf_sections->Some_0.sections@),
                (multiboot_header.address - multiboot_header.address % 4096) as usize,
            );
            &&& after == expected.0
            &&& match result->Some_0 {
                Ok(table) => expected.1 == Ok::<usize, MapError>(table@),
                Err(error) => expected.1 == Err::<usize, MapError>(error),
            }
        }),
{
    let mappable = match &multiboot_header.memory_map {
        Some(memory_map) => is_mappable(&memory_map.get_available_memory_areas()),
        None => false,
    };
    if !mappable || multiboot_header.elf_sections.is_none() || multiboot_header.address as u64
        >= 0x8000_0000_0000 || multiboot_header.address > usize::MAX - 4096 {
        return None;
    }
    Some(remap_kernel(multiboot_header, arena, allocator))
}

/// The first of `sections` that holds `address`.
pub fn section_for(sections: &Vec<ElfSectionHeaderWrapper>, address: &VirtualAddress) -> (result:
    Option<ElfSectionHeaderWrapper>)
    ensures
        result == spec_section_for(sections@, address@ as int, 0),
{
    let mut index: usize = 0;
    while index < sections.len()
        invariant
            index <= sections@.len(),
            spec_section_for(sections@, address@ as int, index as int) == spec_section_for(
                sections@,
                address@ as int,
                0,
            ),
        decreases sections@.len() - index,
    {
        if sections[index].contains(address) {
            return Some(sections[index]);
        }
        index = index + 1;
    }
    None
}

/// Maps the page of physical memory at `page` to its place above
/// `PHYSICAL_MEMORY_OFFSET` under the top table `top`, present, and as writable
/// and executable as the first of `sections` that its virtual address lies
/// in. `page` must be the start of a page of the memory that can be mapped.
pub fn map_page(
    top: &PageTable<Level4>,
    page: &PhysicalAddress,
    sections: &Vec<ElfSectionHeaderWrapper>,
    arena: &mut FrameArena,
    allocator: &mut SimpleFrameAllocator,
) -> (result: Result<(), MapError>)
    requires
        page@ % 4096 == 0,
        page@ < MAPPABLE_END,
        page@ + PHYSICAL_MEMORY_OFFSET <= usize::MAX,
        old(arena).wf(),
        old(allocator).wf(),
    ensures
        final(arena).wf(),
        final(allocator).wf(),
        ({
            let before = WalkState { memory: old(arena)@, allocator: old(allocator)@ };
            let after = WalkState { memory: final(arena)@, allocator: final(allocator)@ };
            (after, result) == spec_map_page(before, top@, sections@, page@ as int)
        }),
{
    proof {
        lemma_lower_half(page@ as u64);
        lemma_lower_half((page@ + PHYSICAL_MEMORY_OFFSET) as u64);
    }
    let virtual_address = page.get_virtual_address();
    let location = match top.map(page, &virtual_address, arena, allocator) {
        Err(error) => {
            return Err(error);
        },
        Ok(location) => location,
    };
    let mut entry = match arena.read(&location.table, location.index) {
        None => {
            return Err(MapError::MissingTable);
        },
        Some(entry) => entry,
    };
    entry.set_present(true);
    match section_for(sections, &virtual_address) {
        Some(section) => {
            let flags = section.get_flags();
            entry.set_writable(flags.is_writable());
            entry.set_executable(flags.is_executable());
        },
        None => {},
    }
    arena.write(&location.table, location.index, entry);
    Ok(())
}

/// Maps every page of `memory_area` as `map_page` does, from the first up to
/// the first that fails.
pub fn map_area(
    top: &PageTable<Level4>,
    memory_area: &MemoryMapEntry,
    sections: &Vec<ElfSectionHeaderWrapper>,
    arena: &mut FrameArena,
    allocator: &mut SimpleFrameAllocator,
) -> (result: Result<(), MapError>)
    requires
        spec_area_mappable(*memory_area),
        old(arena).wf(),
        old(allocator).wf(),
    ensures
        final(arena).wf(),
        final(allocator).wf(),
        ({
            let before = WalkState { memory: old(arena)@, allocator: old(allocator)@ };
            let after = WalkState { memory: final(arena)@, allocator: final(allocator)@ };
            (after, result) == spec_map_area(before, top@, sections@, *memory_area)
        }),
{
    let ghost end = PhysicalAddress::spec_round_up(memory_area.spec_end());
    let ghost target = spec_map_area(
        WalkState { memory: arena@, allocator: allocator@ },
        top@,
        sections@,
        *memory_area,
    );
    let mut pages = memory_area.pages();
    loop
        invariant
            end == PhysicalAddress::spec_round_up(memory_area.spec_end()),
            end <= MAPPABLE_END,
            end + PHYSICAL_MEMORY_OFFSET <= usize::MAX,
            arena.wf(),
            allocator.wf(),
            pages.wf(),
            pages.spec_end() == end,
            pages.spec_current() % 4096 == 0,
            0 <= pages.spec_current(),
            target == spec_map_area(
                WalkState { memory: old(arena)@, allocator: old(allocator)@ },
                top@,
                sections@,
                *memory_area,
            ),
            target == spec_map_pages(
                WalkState { memory: arena@, allocator: allocator@ },
                top@,
                sections@,
                pages.spec_current(),
                end,
            ),
        ensures
            pages.spec_current() >= end,
        decreases end - pages.spec_current(),
    {
        let page = match pages.next() {
            None => {
                break ;
            },
            Some(page) => page,
        };
        match map_page(top, &page, sections, arena, allocator) {
            Err(error) => {
                return Err(error);
            },
            Ok(_) => {},
        }
    }
    Ok(())
}

/// Builds the address space of the kernel in a new top table and gives that
/// table: every page of available memory is mapped above
/// `PHYSICAL_MEMORY_OFFSET`, present, and as writable and executable as the
/// section of the kernel image that it lies in; the text buffer of the screen
/// and the page of the boot information are mapped to themselves. The boot
/// information must hold a memory map and the sections of the kernel, every
/// available area must begin at the start of a page and end within the memory
/// that can be mapped, and the boot information must lie in the lower half of
/// the address space.
pub fn remap_kernel(
    multiboot_header: &MultibootHeader,
    arena: &mut FrameArena,
    allocator: &mut SimpleFrameAllocator,
) -> (result: Result<PageTable<Level4>, MapError>)
    requires
        spec_can_remap(multiboot_header),
        old(arena).wf(),
        old(allocator).wf(),
    ensures
        final(arena).wf(),
        final(allocator).wf(),
        ({
            let before = WalkState { memory: old(arena)@, allocator: old(allocator)@ };
            let after = WalkState { memory: final(arena)@, allocator: final(allocator)@ };
            let expected = spec_remap_kernel(
                before,
                spec_available(multiboot_header.memory_map->Some_0.entries@),
                spec_allocated(multiboot_header.elf_sections->Some_0.sections@),
                (multiboot_header.address - multiboot_header.address % 4096) as usize,
            );
            &&& after == expected.0
            &&& match result {
                Ok(table) => expected.1 == Ok::<usize, MapError>(table@),
                Err(error) => expected.1 == Err::<usize, MapError>(error),
            }
        }),
{
    let top = match PageTable::<Level4>::allocate(arena, allocator) {
        Err(error) => {
            return Err(error);
        },
        Ok(table) => table,
    };
    let areas = match &multiboot_header.memory_map {
        Some(memory_map) => memory_map.get_available_memory_areas(),
        None => Vec::new(),
    };
    let sections = match &multiboot_header.elf_sections {
        Some(elf_sections) => elf_sections.allocated(),
        None => Vec::new(),
    };
    let ghost begun = WalkState { memory: arena@, allocator: allocator@ };
    let mut index: usize = 0;
    while index < areas.len()
        invariant
            index <= areas@.len(),
            arena.wf(),
            allocator.wf(),
            spec_mappable(areas@),
            areas@ == spec_available(multiboot_header.memory_map->Some_0.entries@),
            sections@ == spec_allocated(multiboot_header.elf_sections->Some_0.sections@),
            spec_allocate_table(WalkState { memory: old(arena)@, allocator: old(allocator)@ }) == (
                begun,
                Ok::<usize, MapError>(top@),
            ),
            spec_map_areas(
                WalkState { memory: arena@, allocator: allocator@ },
                top@,
                sections@,
                areas@,
                index as int,
            ) == spec_map_areas(begun, top@, sections@, areas@, 0),
        decreases areas@.len() - index,
    {
        match map_area(&top, &areas[index], &sections, arena, allocator) {
            Err(error) => {
                return Err(error);
            },
            Ok(_) => {},
        }
        index = index + 1;
    }
    match top.identity_map(&PhysicalAddress::new(VIDEO_BUFFER), arena, allocator) {
        Err(error) => {
            return Err(error);
        },
        Ok(_) => {},
    }
    let multiboot_address = Frame::containing_page(
        PhysicalAddress::new(multiboot_header.address),
    ).start();
    match top.identity_map(&multiboot_address, arena, allocator) {
        Err(error) => {
            return Err(error);
        },
        Ok(_) => {},
    }
    Ok(top)
}

} // verus!
