use std::ops::Range;
use yaos::allocator::frame_allocator::{Frame, SimpleFrameAllocator};
use yaos::boot::multiboot_elf_symbols::{
    ElfSectionHeader64, ElfSectionHeaderWrapper, ElfSectionType, ElfSymbolsTag,
};
use yaos::boot::multiboot_header::MultibootHeader;
use yaos::boot::multiboot_memory_map::{MemoryMapEntry, MemoryMapTag};
use yaos::boot::multiboot_tags::TagTypes;
use yaos::paging::frame_arena::{FrameArena, ENTRY_COUNT};
use yaos::paging::page_table::{Level3, Level4, MapError, PageTable};
use yaos::paging::page_table_entry::PageTableEntry;
use yaos::paging::{is_area_mappable, is_mappable, map_page, remap_kernel, try_remap_kernel};
use yaos::physical_address::PhysicalAddress;
use yaos::virtual_address::VirtualAddress;

fn range(start: usize, end: usize) -> Range<PhysicalAddress> {
    PhysicalAddress::new(start)..PhysicalAddress::new(end)
}

fn memory(start: u64, length: u64) -> MemoryMapTag {
    MemoryMapTag::new(vec![MemoryMapEntry::new(start, length, 1)])
}

fn dump(arena: &FrameArena, tables: &[usize]) -> Vec<Vec<u64>> {
    tables
        .iter()
        .map(|table| {
            (0..ENTRY_COUNT)
                .map(|index| arena.read(&PhysicalAddress::new(*table), index).unwrap().value())
                .collect()
        })
        .collect()
}

#[test]
fn entry_address_and_flags() {
    let mut entry = PageTableEntry::empty();
    assert_eq!(entry.value(), 0);
    assert!(!entry.is_present());
    entry.set_address(&PhysicalAddress::new(0x000f_ffff_ffff_f000));
    assert_eq!(entry.value(), 0x000f_ffff_ffff_f000);
    entry.set_present(true);
    entry.set_writable(true);
    assert_eq!(entry.value(), 0x000f_ffff_ffff_f003);
    assert!(entry.is_present());
    assert!(entry.is_writable());
    assert!(entry.is_executable());
    entry.set_executable(false);
    assert_eq!(entry.value(), 0x800f_ffff_ffff_f003);
    assert!(!entry.is_executable());
    entry.set_address(&PhysicalAddress::new(0x5000));
    assert_eq!(entry.value(), 0x8000_0000_0000_5003);
    assert_eq!(entry.get_address().value(), 0x5000);
    entry.set_executable(true);
    entry.set_writable(false);
    entry.set_present(false);
    assert_eq!(entry.value(), 0x5000);
    assert_eq!(PageTableEntry::from_value(0xfff).get_address().value(), 0);
}

#[test]
fn arena_holds_zeroed_tables() {
    let mut arena = FrameArena::new();
    assert_eq!(arena.len(), 0);
    let address = PhysicalAddress::new(0x4000);
    assert!(!arena.contains(&address));
    assert_eq!(arena.read(&address, 0), None);
    assert!(!arena.write(&address, 0, PageTableEntry::from_value(1)));
    arena.zero_frame(&Frame::new(address));
    assert!(arena.contains(&address));
    assert_eq!(arena.len(), 1);
    assert!(dump(&arena, &[0x4000])[0].iter().all(|entry| *entry == 0));
    assert!(arena.write(&address, 511, PageTableEntry::from_value(0x1003)));
    assert_eq!(arena.read(&address, 511).unwrap().value(), 0x1003);
    assert_eq!(arena.read(&address, 510).unwrap().value(), 0);
    arena.zero_frame(&Frame::new(address));
    assert_eq!(arena.len(), 1);
    assert_eq!(arena.read(&address, 511).unwrap().value(), 0);
}

#[test]
fn allocate_takes_one_frame_for_the_top_table() {
    let map = memory(0x100000, 0x10000);
    let mut allocator = SimpleFrameAllocator::init(&map, range(0, 0), range(0, 0));
    let mut arena = FrameArena::new();
    let top = PageTable::<Level4>::allocate(&mut arena, &mut allocator).unwrap();
    assert_eq!(top.get_address().value(), 0x100000);
    assert_eq!(arena.len(), 1);
    assert_eq!(allocator.position().value(), 0x101000);
}

#[test]
fn map_makes_the_three_tables_below_and_points_the_entry_at_the_frame() {
    let map = memory(0x100000, 0x10000);
    let mut allocator = SimpleFrameAllocator::init(&map, range(0, 0), range(0, 0));
    let mut arena = FrameArena::new();
    let top = PageTable::<Level4>::allocate(&mut arena, &mut allocator).unwrap();
    let address = VirtualAddress::new((1 << 39) | (2 << 30) | (3 << 21) | (4 << 12)).unwrap();
    let frame = PhysicalAddress::new(0xabc000);
    let location = top.map(&frame, &address, &mut arena, &mut allocator).unwrap();
    assert_eq!(arena.len(), 4);
    assert_eq!(location.table.value(), 0x103000);
    assert_eq!(location.index, 4);
    assert_eq!(arena.read(&PhysicalAddress::new(0x100000), 1).unwrap().value(), 0x101003);
    assert_eq!(arena.read(&PhysicalAddress::new(0x101000), 2).unwrap().value(), 0x102003);
    assert_eq!(arena.read(&PhysicalAddress::new(0x102000), 3).unwrap().value(), 0x103003);
    assert_eq!(arena.read(&PhysicalAddress::new(0x103000), 4).unwrap().value(), 0xabc000);
    assert_eq!(allocator.position().value(), 0x104000);
    let set: usize = dump(&arena, &[0x100000, 0x101000, 0x102000, 0x103000])
        .iter()
        .map(|table| table.iter().filter(|entry| **entry != 0).count())
        .sum();
    assert_eq!(set, 4);
}

#[test]
fn mapping_twice_is_mapping_once() {
    let map = memory(0x100000, 0x10000);
    let mut allocator = SimpleFrameAllocator::init(&map, range(0, 0), range(0, 0));
    let mut arena = FrameArena::new();
    let top = PageTable::<Level4>::allocate(&mut arena, &mut allocator).unwrap();
    let address = VirtualAddress::new(0xC010_0000).unwrap();
    let frame = PhysicalAddress::new(0x100000);
    let first = top.map(&frame, &address, &mut arena, &mut allocator).unwrap();
    let tables = [0x100000, 0x101000, 0x102000, 0x103000];
    let once = dump(&arena, &tables);
    let position = allocator.position();
    let second = top.map(&frame, &address, &mut arena, &mut allocator).unwrap();
    assert_eq!(first, second);
    assert_eq!(arena.len(), 4);
    assert_eq!(dump(&arena, &tables), once);
    assert_eq!(allocator.position(), position);
}

#[test]
fn neighbouring_pages_share_their_tables() {
    let map = memory(0x100000, 0x10000);
    let mut allocator = SimpleFrameAllocator::init(&map, range(0, 0), range(0, 0));
    let mut arena = FrameArena::new();
    let top = PageTable::<Level4>::allocate(&mut arena, &mut allocator).unwrap();
    let first = VirtualAddress::new(0x1000).unwrap();
    let second = VirtualAddress::new(0x2000).unwrap();
    top.map(&PhysicalAddress::new(0x7000), &first, &mut arena, &mut allocator).unwrap();
    top.map(&PhysicalAddress::new(0x8000), &second, &mut arena, &mut allocator).unwrap();
    assert_eq!(arena.len(), 4);
    assert_eq!(arena.read(&PhysicalAddress::new(0x103000), 1).unwrap().value(), 0x7000);
    assert_eq!(arena.read(&PhysicalAddress::new(0x103000), 2).unwrap().value(), 0x8000);
    let far = VirtualAddress::new(1 << 21).unwrap();
    top.map(&PhysicalAddress::new(0x9000), &far, &mut arena, &mut allocator).unwrap();
    assert_eq!(arena.len(), 5);
}

#[test]
fn get_table_at_follows_a_present_entry_without_allocating() {
    let map = memory(0x100000, 0x10000);
    let mut allocator = SimpleFrameAllocator::init(&map, range(0, 0), range(0, 0));
    let mut arena = FrameArena::new();
    let top = PageTable::<Level4>::allocate(&mut arena, &mut allocator).unwrap();
    let made = top.get_table_at(7, &mut arena, &mut allocator).unwrap();
    assert_eq!(made.get_address().value(), 0x101000);
    assert_eq!(arena.len(), 2);
    let found = top.get_table_at(7, &mut arena, &mut allocator).unwrap();
    assert_eq!(found.get_address().value(), 0x101000);
    assert_eq!(arena.len(), 2);
    assert_eq!(allocator.position().value(), 0x102000);
    let below = found.get_table_at(0, &mut arena, &mut allocator).unwrap();
    assert_eq!(below.get_address().value(), 0x102000);
}

#[test]
fn map_fails_when_the_allocator_runs_out() {
    let map = memory(0x100000, 0x2000);
    let mut allocator = SimpleFrameAllocator::init(&map, range(0, 0), range(0, 0));
    let mut arena = FrameArena::new();
    let top = PageTable::<Level4>::allocate(&mut arena, &mut allocator).unwrap();
    let address = VirtualAddress::new(0x1000).unwrap();
    let result = top.map(&PhysicalAddress::new(0x7000), &address, &mut arena, &mut allocator);
    assert_eq!(result, Err(MapError::OutOfFrames));
    let empty = MemoryMapTag::new(vec![]);
    let mut none = SimpleFrameAllocator::init(&empty, range(0, 0), range(0, 0));
    let mut arena = FrameArena::new();
    assert!(matches!(
        PageTable::<Level4>::allocate(&mut arena, &mut none),
        Err(MapError::OutOfFrames)
    ));
}

#[test]
fn walk_through_a_table_that_is_not_in_the_arena_fails() {
    let map = memory(0x100000, 0x10000);
    let mut allocator = SimpleFrameAllocator::init(&map, range(0, 0), range(0, 0));
    let mut arena = FrameArena::new();
    let stray = PageTable::<Level3>::at(PhysicalAddress::new(0x555000));
    assert!(matches!(
        stray.get_table_at(0, &mut arena, &mut allocator),
        Err(MapError::MissingTable)
    ));
    let top = PageTable::<Level4>::allocate(&mut arena, &mut allocator).unwrap();
    arena.write(&top.get_address(), 0, PageTableEntry::from_value(0x777003));
    let result = top.map(
        &PhysicalAddress::new(0x7000),
        &VirtualAddress::new(0x1000).unwrap(),
        &mut arena,
        &mut allocator,
    );
    assert_eq!(result, Err(MapError::MissingTable));
}

#[test]
fn frame_from_beyond_the_reach_of_an_entry_is_refused() {
    let map = memory(1 << 52, 0x10000);
    let mut allocator = SimpleFrameAllocator::init(&map, range(0, 0), range(0, 0));
    let mut arena = FrameArena::new();
    let top = PageTable::<Level4>::allocate(&mut arena, &mut allocator).unwrap();
    assert!(matches!(
        top.get_table_at(0, &mut arena, &mut allocator),
        Err(MapError::FrameOutOfReach)
    ));
}

#[test]
fn identity_map_is_writable_and_present() {
    let map = memory(0x100000, 0x10000);
    let mut allocator = SimpleFrameAllocator::init(&map, range(0, 0), range(0, 0));
    let mut arena = FrameArena::new();
    let top = PageTable::<Level4>::allocate(&mut arena, &mut allocator).unwrap();
    top.identity_map(&PhysicalAddress::new(0xb8000), &mut arena, &mut allocator).unwrap();
    assert_eq!(arena.len(), 4);
    assert_eq!(arena.read(&PhysicalAddress::new(0x103000), 0xb8).unwrap().value(), 0xb8003);
}

fn section(addr: u64, size: u64, flags: u64) -> ElfSectionHeaderWrapper {
    ElfSectionHeaderWrapper::from_64(ElfSectionHeader64 {
        name: 0,
        typ: ElfSectionType::ProgramSection,
        flags,
        addr,
        offset: 0,
        size,
        link: 0,
        addr_align: 0,
        entry_size: 0,
    })
}

fn sections(list: Vec<ElfSectionHeaderWrapper>) -> ElfSymbolsTag {
    ElfSymbolsTag {
        typ: TagTypes::ElfSymbols,
        size: 0,
        number_of_entries: list.len() as u32,
        entry_size: 64,
        shndx: 0,
        sections: list,
    }
}

#[test]
fn map_page_takes_the_flags_of_its_section() {
    let map = memory(0x100000, 0x10000);
    let mut allocator = SimpleFrameAllocator::init(&map, range(0, 0), range(0, 0));
    let mut arena = FrameArena::new();
    let top = PageTable::<Level4>::allocate(&mut arena, &mut allocator).unwrap();
    let list = vec![
        section(0xC020_0000, 0x1000, 0x6), // allocated, executable
        section(0xC020_1000, 0x1000, 0x3), // allocated, writable
    ];
    map_page(&top, &PhysicalAddress::new(0x200000), &list, &mut arena, &mut allocator).unwrap();
    map_page(&top, &PhysicalAddress::new(0x201000), &list, &mut arena, &mut allocator).unwrap();
    map_page(&top, &PhysicalAddress::new(0x202000), &list, &mut arena, &mut allocator).unwrap();
    // 0xC020_0000 has the indices (0, 3, 1, 0).
    let l1 = PhysicalAddress::new(0x103000);
    assert_eq!(arena.read(&l1, 0).unwrap().value(), 0x200001);
    assert_eq!(arena.read(&l1, 1).unwrap().value(), 0x8000_0000_0020_1003);
    assert_eq!(arena.read(&l1, 2).unwrap().value(), 0x202001);
}

#[test]
fn remap_kernel_maps_memory_screen_and_boot_information() {
    let map = memory(0x100000, 0x20000);
    let mut allocator = SimpleFrameAllocator::init(&map, range(0x100000, 0x102000), range(0, 0));
    let mut arena = FrameArena::new();
    let header = MultibootHeader {
        address: 0x9500,
        total_size: 16,
        reserved: 0,
        memory_map: Some(memory(0x100000, 0x3000)),
        elf_sections: Some(sections(vec![
            section(0xC010_0000, 0x1000, 0x6),
            section(0xC010_1000, 0x1000, 0x3),
            section(0xC010_2000, 0x1000, 0x1),
        ])),
    };
    let top = remap_kernel(&header, &mut arena, &mut allocator).unwrap();
    assert_eq!(top.get_address().value(), 0x102000);
    // The top table and the level 3 table that both halves share, then two
    // tables for the memory above the offset and two for the low addresses of
    // the screen and the boot information.
    assert_eq!(arena.len(), 6);
    let high = PhysicalAddress::new(0x105000);
    assert_eq!(arena.read(&high, 0x100).unwrap().value(), 0x100001);
    assert_eq!(arena.read(&high, 0x101).unwrap().value(), 0x8000_0000_0010_1003);
    assert_eq!(arena.read(&high, 0x102).unwrap().value(), 0x102001);
    assert_eq!(arena.read(&high, 0x103).unwrap().value(), 0);
    let low = PhysicalAddress::new(0x107000);
    assert_eq!(arena.read(&low, 0xb8).unwrap().value(), 0xb8003);
    assert_eq!(arena.read(&low, 0x9).unwrap().value(), 0x9003);
}

#[test]
fn remap_kernel_fails_without_frames() {
    let map = memory(0x100000, 0x3000);
    let mut allocator = SimpleFrameAllocator::init(&map, range(0, 0), range(0, 0));
    let mut arena = FrameArena::new();
    let header = MultibootHeader {
        address: 0x9000,
        total_size: 16,
        reserved: 0,
        memory_map: Some(memory(0x100000, 0x3000)),
        elf_sections: Some(sections(vec![])),
    };
    assert!(matches!(
        remap_kernel(&header, &mut arena, &mut allocator),
        Err(MapError::OutOfFrames)
    ));
}

#[test]
fn arena_can_be_walked_frame_by_frame() {
    let mut arena = FrameArena::new();
    arena.zero_frame(&Frame::new(PhysicalAddress::new(0x5000)));
    arena.zero_frame(&Frame::new(PhysicalAddress::new(0x9000)));
    arena.zero_frame(&Frame::new(PhysicalAddress::new(0x5000)));
    let mut seen: Vec<usize> = (0..arena.len()).map(|slot| arena.address_at(slot).value()).collect();
    seen.sort();
    assert_eq!(seen, vec![0x5000, 0x9000]);
}

#[test]
fn areas_that_can_be_mapped() {
    assert!(is_area_mappable(&MemoryMapEntry::new(0x100000, 0x7ee0000, 1)));
    assert!(is_area_mappable(&MemoryMapEntry::new(0, 0, 1)));
    assert!(!is_area_mappable(&MemoryMapEntry::new(0x100800, 0x1000, 1)));
    assert!(is_area_mappable(&MemoryMapEntry::new(0x7ffe_ffff_f000, 0x1000, 1)));
    assert!(!is_area_mappable(&MemoryMapEntry::new(0x7fff_0000_0000, 0x1000, 1)));
    assert!(!is_area_mappable(&MemoryMapEntry::new(0x1000, u64::MAX, 1)));
    assert!(is_mappable(&vec![]));
    assert!(is_mappable(&vec![MemoryMapEntry::new(0, 0x1000, 1), MemoryMapEntry::new(0x2000, 0x10, 1)]));
    assert!(!is_mappable(&vec![MemoryMapEntry::new(0, 0x1000, 1), MemoryMapEntry::new(0x2001, 0x10, 1)]));
}

#[test]
fn try_remap_kernel_refuses_what_cannot_be_mapped() {
    let map = memory(0x100000, 0x20000);
    let mut allocator = SimpleFrameAllocator::init(&map, range(0, 0), range(0, 0));
    let mut arena = FrameArena::new();
    let no_map = MultibootHeader {
        address: 0x9000,
        total_size: 16,
        reserved: 0,
        memory_map: None,
        elf_sections: Some(sections(vec![])),
    };
    assert!(try_remap_kernel(&no_map, &mut arena, &mut allocator).is_none());
    let unaligned = MultibootHeader {
        address: 0x9000,
        total_size: 16,
        reserved: 0,
        memory_map: Some(memory(0x100800, 0x3000)),
        elf_sections: Some(sections(vec![])),
    };
    assert!(try_remap_kernel(&unaligned, &mut arena, &mut allocator).is_none());
    assert_eq!(arena.len(), 0);
    assert_eq!(allocator.position().value(), 0x100000);
    let sound = MultibootHeader {
        address: 0x9000,
        total_size: 16,
        reserved: 0,
        memory_map: Some(memory(0x100000, 0x1000)),
        elf_sections: Some(sections(vec![])),
    };
    let top = try_remap_kernel(&sound, &mut arena, &mut allocator).unwrap().unwrap();
    assert_eq!(top.get_address().value(), 0x100000);
    assert_eq!(arena.len(), 6);
}
