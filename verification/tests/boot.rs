use yaos::boot::multiboot_elf_symbols::{
    ElfSectionFlags, ElfSectionHeader, ElfSectionHeader32, ElfSectionHeader64,
    ElfSectionHeaderIterator, ElfSectionHeaderWrapper, ElfSectionType, ElfSymbolsTag,
};
use yaos::boot::multiboot_header::{extent, MultibootHeader};
use yaos::boot::multiboot_memory_map::{MemoryMapEntry, MemoryMapTag};
use yaos::boot::multiboot_tags::{Tag, TagIterator, TagTypes};
use yaos::virtual_address::VirtualAddress;

fn section(typ: ElfSectionType, addr: u64, size: u64, flags: u64) -> ElfSectionHeaderWrapper {
    ElfSectionHeaderWrapper::from_64(ElfSectionHeader64 {
        name: 0,
        typ,
        flags,
        addr,
        offset: 0,
        size,
        link: 0,
        addr_align: 0,
        entry_size: 0,
    })
}

fn tag_of(list: Vec<ElfSectionHeaderWrapper>, entry_size: u32) -> ElfSymbolsTag {
    ElfSymbolsTag {
        typ: TagTypes::ElfSymbols,
        size: 20,
        number_of_entries: list.len() as u32,
        entry_size,
        shndx: 0,
        sections: list,
    }
}

#[test]
fn section_flags() {
    assert!(ElfSectionFlags(0x1).is_writable());
    assert!(ElfSectionFlags(0x2).is_allocated());
    assert!(ElfSectionFlags(0x4).is_executable());
    assert!(!ElfSectionFlags(0x6).is_writable());
    assert!(ElfSectionFlags(0).is_none());
    assert!(ElfSectionFlags(0x8).is_none());
    assert!(!ElfSectionFlags(0x4).is_none());
}

#[test]
fn section_flag_names() {
    assert_eq!(ElfSectionFlags(0).names(), vec!["NONE"]);
    assert_eq!(ElfSectionFlags(0x1).names(), vec!["WRITABLE"]);
    assert_eq!(ElfSectionFlags(0x6).names(), vec!["EXECUTABLE", "ALLOCATED"]);
    assert_eq!(ElfSectionFlags(0x7).names(), vec!["WRITABLE", "EXECUTABLE", "ALLOCATED"]);
    assert_eq!(ElfSectionFlags(0x7).names().join(" | "), "WRITABLE | EXECUTABLE | ALLOCATED");
}

#[test]
fn section_headers_of_both_widths() {
    let narrow = ElfSectionHeader32 {
        name: 1,
        typ: ElfSectionType::ProgramSection,
        flags: 0x3,
        addr: 0xC010_0000,
        offset: 0,
        size: 0x2000,
        link: 0,
        addr_align: 16,
        entry_size: 0,
    };
    assert_eq!(narrow.get_addr().value(), 0xC010_0000);
    assert_eq!(narrow.get_size(), 0x2000);
    assert_eq!(narrow.get_flags(), ElfSectionFlags(0x3));
    assert_eq!(narrow.get_type(), ElfSectionType::ProgramSection);
    let wrapped = ElfSectionHeaderWrapper::from_32(narrow);
    assert_eq!(wrapped.size, 32);
    assert_eq!(wrapped.get_addr().value(), 0xC010_0000);
    assert_eq!(wrapped.get_size(), 0x2000);
    assert_eq!(wrapped.get_flags(), ElfSectionFlags(0x3));

    let wide = section(ElfSectionType::Uninitialized, 0xffff_8000_0000_1000, 0x10, 0x2);
    assert_eq!(wide.size, 64);
    assert_eq!(wide.get_addr().value(), 0xffff_8000_0000_1000);
    assert_eq!(wide.get_type(), ElfSectionType::Uninitialized);
    assert!(wide.contains(&VirtualAddress::new(0xffff_8000_0000_100f).unwrap()));
    assert!(!wide.contains(&VirtualAddress::new(0xffff_8000_0000_1010).unwrap()));
    assert!(!wide.contains(&VirtualAddress::new(0xffff_8000_0000_0fff).unwrap()));
}

#[test]
fn used_and_allocated_sections() {
    let list = vec![
        section(ElfSectionType::Unused, 0, 0, 0x7),
        section(ElfSectionType::ProgramSection, 0x1000, 0x10, 0x6),
        section(ElfSectionType::StringTable, 0x2000, 0x10, 0x0),
        section(ElfSectionType::ProgramSection, 0x3000, 0x10, 0x1),
        section(ElfSectionType::Uninitialized, 0x4000, 0x10, 0x3),
    ];
    let tag = tag_of(list, 64);
    let used: Vec<usize> = tag.used().iter().map(|s| s.get_addr().value()).collect();
    assert_eq!(used, vec![0x1000, 0x3000, 0x4000]);
    let allocated: Vec<usize> = tag.allocated().iter().map(|s| s.get_addr().value()).collect();
    assert_eq!(allocated, vec![0x1000, 0x4000]);
}

#[test]
fn section_iterator_reads_the_width_from_the_entry_size() {
    let list = vec![
        section(ElfSectionType::ProgramSection, 0x1000, 0x10, 0x6),
        section(ElfSectionType::ProgramSection, 0x2000, 0x10, 0x6),
    ];
    let wide = tag_of(list.clone(), 64);
    let mut sections = ElfSectionHeaderIterator::new(&wide);
    assert_eq!(sections.next().map(|s| (s.size, s.get_addr().value())), Some((64, 0x1000)));
    assert_eq!(sections.next().map(|s| (s.size, s.get_addr().value())), Some((64, 0x2000)));
    assert!(sections.next().is_none());
    let narrow = tag_of(list, 40);
    let mut sections = ElfSectionHeaderIterator::new(&narrow);
    assert_eq!(sections.next().map(|s| s.size), Some(32));
}

#[test]
fn extent_is_least_start_and_greatest_end() {
    assert_eq!(extent(&vec![]), None);
    let list = vec![
        section(ElfSectionType::ProgramSection, 0x3000, 0x500, 0x6),
        section(ElfSectionType::ProgramSection, 0x1000, 0x100, 0x6),
        section(ElfSectionType::ProgramSection, 0x2000, 0x3000, 0x6),
    ];
    assert_eq!(extent(&list), Some((0x1000, 0x5000)));
    let wraps = vec![section(ElfSectionType::ProgramSection, 0xffff_ffff_ffff_f000, 0x1000, 0x6)];
    assert_eq!(extent(&wraps), None);
}

#[test]
fn kernel_and_boot_information_locations() {
    let header = MultibootHeader {
        address: 0xC000_9000,
        total_size: 0x340,
        reserved: 0,
        memory_map: Some(MemoryMapTag::new(vec![MemoryMapEntry::new(0, 0x1000, 1)])),
        elf_sections: Some(tag_of(
            vec![
                section(ElfSectionType::Unused, 0, 0, 0),
                section(ElfSectionType::ProgramSection, 0xC010_0000, 0x8000, 0x6),
                section(ElfSectionType::ProgramSection, 0xC010_8000, 0x1234, 0x3),
                section(ElfSectionType::StringTable, 0xC020_0000, 0x1000, 0x0),
            ],
            64,
        )),
    };
    let kernel = header.get_kernel_location();
    assert_eq!(kernel.start.value(), 0x100000);
    assert_eq!(kernel.end.value(), 0x109234);
    let boot = header.get_multiboot_location();
    assert_eq!(boot.start.value(), 0x9000);
    assert_eq!(boot.end.value(), 0x9340);
    assert_eq!(header.get_size(), 0x340);
    assert_eq!(header.get_memory_map().unwrap().entries.len(), 1);
    assert_eq!(header.get_elf_sections().unwrap().sections.len(), 4);
}

#[test]
fn header_without_tags_has_none() {
    let tags = vec![Tag::new(TagTypes::EndTag, 8)];
    let header = MultibootHeader::load(0x9000, 16, 0, &tags, None, None);
    assert!(header.get_memory_map().is_none());
    assert!(header.get_elf_sections().is_none());
    assert_eq!(header.address, 0x9000);
}

#[test]
fn end_tag_must_close_the_boot_information() {
    let tags = vec![
        Tag::new(TagTypes::BootCommandLine, 13),
        Tag::new(TagTypes::MemoryMap, 40),
        Tag::new(TagTypes::EndTag, 8),
    ];
    // 8 bytes of header, 16 for the padded command line, 40, and the end tag.
    assert!(MultibootHeader::has_valid_end_tag(72, &tags));
    assert!(!MultibootHeader::has_valid_end_tag(69, &tags));
    assert!(!MultibootHeader::has_valid_end_tag(80, &tags));
    assert!(!MultibootHeader::has_valid_end_tag(8, &vec![]));
    assert!(!MultibootHeader::has_valid_end_tag(16, &vec![Tag::new(TagTypes::EndTag, 12)]));
    assert!(!MultibootHeader::has_valid_end_tag(16, &vec![Tag::new(TagTypes::Modules, 8)]));
    assert!(MultibootHeader::has_valid_end_tag(16, &vec![Tag::new(TagTypes::EndTag, 8)]));
}

#[test]
fn tags_and_their_numbers() {
    let tag = Tag::new(TagTypes::MemoryMap, 21);
    assert_eq!(tag.typ(), TagTypes::MemoryMap);
    assert_eq!(tag.size(), 21);
    assert_eq!(tag.stride(), 24);
    assert_eq!(Tag::new(TagTypes::EndTag, 8).stride(), 8);
    assert_eq!(Tag::new(TagTypes::EndTag, 0).stride(), 0);
    assert_eq!(TagTypes::EndTag.number(), 0);
    assert_eq!(TagTypes::MemoryMap.number(), 6);
    assert_eq!(TagTypes::ElfSymbols.number(), 9);
    assert_eq!(TagTypes::APMTable.number(), 10);
    assert_eq!(TagTypes::from_number(6), Some(TagTypes::MemoryMap));
    assert_eq!(TagTypes::from_number(11), None);
    for number in 0..=10 {
        assert_eq!(TagTypes::from_number(number).unwrap().number(), number);
    }
}

#[test]
fn tag_iterator_stops_at_the_end_tag() {
    let tags = vec![
        Tag::new(TagTypes::BootLoaderName, 12),
        Tag::new(TagTypes::MemoryMap, 40),
        Tag::new(TagTypes::EndTag, 8),
        Tag::new(TagTypes::Modules, 16),
    ];
    let mut walk = TagIterator::new(&tags);
    assert_eq!(walk.next(), Some(tags[0]));
    assert_eq!(walk.next(), Some(tags[1]));
    assert_eq!(walk.next(), None);
    assert_eq!(walk.next(), None);
    let none: Vec<Tag> = vec![];
    assert_eq!(TagIterator::new(&none).next(), None);
}

#[test]
fn kernel_that_cannot_be_placed() {
    let none = MultibootHeader { address: 0, total_size: 16, reserved: 0, memory_map: None, elf_sections: None };
    assert!(none.find_kernel_location().is_none());
    let unused = MultibootHeader {
        address: 0,
        total_size: 16,
        reserved: 0,
        memory_map: None,
        elf_sections: Some(tag_of(vec![section(ElfSectionType::Unused, 0xC010_0000, 0x10, 0x7)], 64)),
    };
    assert!(unused.find_kernel_location().is_none());
    let low = MultibootHeader {
        address: 0,
        total_size: 16,
        reserved: 0,
        memory_map: None,
        elf_sections: Some(tag_of(
            vec![
                section(ElfSectionType::ProgramSection, 0x1000, 0x10, 0x6),
                section(ElfSectionType::ProgramSection, 0xC010_0000, 0x10, 0x6),
            ],
            64,
        )),
    };
    assert!(low.find_kernel_location().is_none());
    let placed = MultibootHeader {
        address: 0,
        total_size: 16,
        reserved: 0,
        memory_map: None,
        elf_sections: Some(tag_of(vec![section(ElfSectionType::ProgramSection, 0xC010_0000, 0x10, 0x6)], 64)),
    };
    let kernel = placed.find_kernel_location().unwrap();
    assert_eq!((kernel.start.value(), kernel.end.value()), (0x100000, 0x100010));
}
