use yaos::boot::multiboot_bytes::{
    find_tag, parse, parse_elf_sections, parse_memory_map, parse_tags, read_u32, read_u64,
    section_type, tag_at,
};
use yaos::boot::multiboot_elf_symbols::{ElfSectionHeader, ElfSectionType};
use yaos::boot::multiboot_memory_map::{MemoryAreaType, MemoryMapEntry};
use yaos::boot::multiboot_tags::{Tag, TagTypes};

fn put32(bytes: &mut Vec<u8>, value: u32) {
    bytes.extend_from_slice(&value.to_le_bytes());
}

fn put64(bytes: &mut Vec<u8>, value: u64) {
    bytes.extend_from_slice(&value.to_le_bytes());
}

fn pad(bytes: &mut Vec<u8>) {
    while bytes.len() % 8 != 0 {
        bytes.push(0);
    }
}

fn section64(bytes: &mut Vec<u8>, typ: u32, flags: u64, addr: u64, size: u64) {
    put32(bytes, 7); // name
    put32(bytes, typ);
    put64(bytes, flags);
    put64(bytes, addr);
    put64(bytes, 0x1000); // offset
    put64(bytes, size);
    put32(bytes, 3); // link
    put64(bytes, 16); // alignment
    put64(bytes, 0); // entry size
    put32(bytes, 0); // fill to 64 bytes
}

fn boot_information() -> Vec<u8> {
    let mut bytes = Vec::new();
    put32(&mut bytes, 0); // total size, filled in below
    put32(&mut bytes, 0); // reserved
    // Command line of five bytes.
    put32(&mut bytes, 1);
    put32(&mut bytes, 13);
    bytes.extend_from_slice(b"yaos\0");
    pad(&mut bytes);
    // Memory map of two entries.
    put32(&mut bytes, 6);
    put32(&mut bytes, 16 + 2 * 24);
    put32(&mut bytes, 24);
    put32(&mut bytes, 0);
    put64(&mut bytes, 0x0);
    put64(&mut bytes, 0x9fc00);
    put32(&mut bytes, 2);
    put32(&mut bytes, 0);
    put64(&mut bytes, 0x100000);
    put64(&mut bytes, 0x7ee0000);
    put32(&mut bytes, 1);
    put32(&mut bytes, 0);
    // Two sections of a 64-bit image.
    put32(&mut bytes, 9);
    put32(&mut bytes, 20 + 2 * 64);
    put32(&mut bytes, 2);
    put32(&mut bytes, 64);
    put32(&mut bytes, 1);
    section64(&mut bytes, 1, 0x6, 0xC010_0000, 0x8000);
    section64(&mut bytes, 8, 0x3, 0xC010_8000, 0x2000);
    pad(&mut bytes);
    // End tag.
    put32(&mut bytes, 0);
    put32(&mut bytes, 8);
    let total = bytes.len() as u32;
    bytes[0..4].copy_from_slice(&total.to_le_bytes());
    bytes
}

#[test]
fn numbers_are_little_endian() {
    let bytes = [0x78, 0x56, 0x34, 0x12, 0xf0, 0xde, 0xbc, 0x9a, 0xff];
    assert_eq!(read_u32(&bytes, 0), 0x1234_5678);
    assert_eq!(read_u32(&bytes, 4), 0x9abc_def0);
    assert_eq!(read_u32(&bytes, 5), 0xff9a_bcde);
    assert_eq!(read_u64(&bytes, 0), 0x9abc_def0_1234_5678);
}

#[test]
fn tags_are_walked_up_to_the_end_tag() {
    let bytes = boot_information();
    let tags = parse_tags(&bytes).unwrap();
    assert_eq!(
        tags,
        vec![
            Tag::new(TagTypes::BootCommandLine, 13),
            Tag::new(TagTypes::MemoryMap, 64),
            Tag::new(TagTypes::ElfSymbols, 148),
            Tag::new(TagTypes::EndTag, 8),
        ]
    );
    assert_eq!(tag_at(&bytes, 8), Some(Tag::new(TagTypes::BootCommandLine, 13)));
    assert_eq!(tag_at(&bytes, bytes.len() - 4), None);
    assert_eq!(find_tag(&bytes, TagTypes::MemoryMap), Some(24));
    assert_eq!(find_tag(&bytes, TagTypes::ElfSymbols), Some(88));
    assert_eq!(find_tag(&bytes, TagTypes::Modules), None);
    assert_eq!(find_tag(&bytes, TagTypes::EndTag), None);
}

#[test]
fn tags_without_an_end_are_refused() {
    let mut bytes = boot_information();
    bytes.truncate(bytes.len() - 8);
    assert_eq!(parse_tags(&bytes), None);
    let mut unknown = boot_information();
    unknown[8] = 99;
    assert_eq!(parse_tags(&unknown), None);
    let mut short = boot_information();
    short[12] = 4; // a tag shorter than its header
    assert_eq!(parse_tags(&short), None);
}

#[test]
fn memory_map_is_read_entry_by_entry() {
    let bytes = boot_information();
    let map = parse_memory_map(&bytes, 24).unwrap();
    assert_eq!(map.size, 64);
    assert_eq!(map.entry_size, 24);
    assert_eq!(map.entry_version, 0);
    assert_eq!(
        map.entries,
        vec![MemoryMapEntry::new(0x0, 0x9fc00, 2), MemoryMapEntry::new(0x100000, 0x7ee0000, 1)]
    );
    assert_eq!(map.entries[1].typ(), MemoryAreaType::Available);
    assert!(parse_memory_map(&bytes, 8).is_none());
    assert!(parse_memory_map(&bytes, bytes.len()).is_none());
    let mut torn = boot_information();
    torn[32] = 20; // entries shorter than the kernel reads them
    assert!(parse_memory_map(&torn, 24).is_none());
}

#[test]
fn sections_are_read_in_the_width_of_their_entries() {
    let bytes = boot_information();
    let tag = parse_elf_sections(&bytes, 88).unwrap();
    assert_eq!(tag.number_of_entries, 2);
    assert_eq!(tag.entry_size, 64);
    assert_eq!(tag.shndx, 1);
    assert_eq!(tag.sections.len(), 2);
    assert_eq!(tag.sections[0].size, 64);
    assert_eq!(tag.sections[0].get_type(), ElfSectionType::ProgramSection);
    assert_eq!(tag.sections[0].get_addr().value(), 0xC010_0000);
    assert_eq!(tag.sections[0].get_size(), 0x8000);
    assert!(tag.sections[0].get_flags().is_executable());
    assert_eq!(tag.sections[0].header.link, 3);
    assert_eq!(tag.sections[0].header.addr_align, 16);
    assert_eq!(tag.sections[1].get_type(), ElfSectionType::Uninitialized);
    assert_eq!(tag.sections[1].get_addr().value(), 0xC010_8000);
    assert!(tag.sections[1].get_flags().is_writable());
    assert!(parse_elf_sections(&bytes, 24).is_none());
    let mut odd = boot_information();
    odd[100] = 48; // neither 40 nor 64
    assert!(parse_elf_sections(&odd, 88).is_none());
}

#[test]
fn narrow_sections() {
    let mut bytes = Vec::new();
    put32(&mut bytes, 9);
    put32(&mut bytes, 60);
    put32(&mut bytes, 1);
    put32(&mut bytes, 40);
    put32(&mut bytes, 0);
    for value in [5u32, 3, 0x2, 0xC020_0000, 0x40, 0x123, 1, 4, 0, 0] {
        put32(&mut bytes, value);
    }
    let tag = parse_elf_sections(&bytes, 0).unwrap();
    assert_eq!(tag.sections.len(), 1);
    assert_eq!(tag.sections[0].size, 32);
    assert_eq!(tag.sections[0].get_type(), ElfSectionType::StringTable);
    assert_eq!(tag.sections[0].get_addr().value(), 0xC020_0000);
    assert_eq!(tag.sections[0].get_size(), 0x123);
    assert!(tag.sections[0].get_flags().is_allocated());
}

#[test]
fn section_kinds() {
    assert_eq!(section_type(0), Some(ElfSectionType::Unused));
    assert_eq!(section_type(11), Some(ElfSectionType::DynamicLoaderSymbolTable));
    assert_eq!(section_type(0x6000_0000), Some(ElfSectionType::EnvironmentSpecific));
    assert_eq!(section_type(0x7000_0000), Some(ElfSectionType::ProcessorSpecific));
    assert_eq!(section_type(12), None);
}

#[test]
fn whole_boot_information() {
    let bytes = boot_information();
    let header = parse(0x9000, &bytes).unwrap();
    assert_eq!(header.address, 0x9000);
    assert_eq!(header.get_size(), bytes.len());
    assert_eq!(header.get_memory_map().unwrap().entries.len(), 2);
    assert_eq!(header.get_elf_sections().unwrap().sections.len(), 2);
    let kernel = {
        let at_offset = parse(0xC000_9000, &bytes).unwrap();
        at_offset.get_kernel_location()
    };
    assert_eq!(kernel.start.value(), 0x100000);
    assert_eq!(kernel.end.value(), 0x10a000);
}

#[test]
fn boot_information_must_be_sound() {
    let bytes = boot_information();
    assert!(parse(0x9004, &bytes).is_none());
    let mut reserved = bytes.clone();
    reserved[4] = 1;
    assert!(parse(0x9000, &reserved).is_none());
    let mut longer = bytes.clone();
    longer.extend_from_slice(&[0; 8]);
    assert!(parse(0x9000, &longer).is_none());
    let mut wrong_end = bytes.clone();
    let last = wrong_end.len() - 4;
    wrong_end[last] = 16;
    assert!(parse(0x9000, &wrong_end).is_none());
    assert!(parse(0x9000, &[]).is_none());
    let mut minimal = Vec::new();
    put32(&mut minimal, 16);
    put32(&mut minimal, 0);
    put32(&mut minimal, 0);
    put32(&mut minimal, 8);
    let header = parse(0, &minimal).unwrap();
    assert!(header.get_memory_map().is_none());
    assert!(header.get_elf_sections().is_none());
}
