//! Reading the boot information from the bytes in which the boot loader
//! leaves it. All numbers are little-endian.
use crate::boot::multiboot_elf_symbols::{
    ElfSectionHeader64,
    ElfSectionHeaderWrapper,
    ElfSectionType,
    ElfSymbolsTag,
};
use crate::boot::multiboot_header::{spec_has_valid_end_tag, MultibootHeader};
use crate::boot::multiboot_memory_map::{MemoryMapEntry, MemoryMapTag};
use crate::boot::multiboot_tags::{Tag, TagTypes};
use vstd::prelude::*;

verus! {

/// Size in bytes of the header of the boot information and of the header of
/// a tag.
pub const HEADER_SIZE: usize = 8;

/// Size in bytes of the fields of a memory map tag before its entries.
pub const MEMORY_MAP_HEADER: usize = 16;

/// Size in bytes of an entry of the memory map as the kernel reads it.
pub const MEMORY_MAP_ENTRY: usize = 24;

/// Size in bytes of the fields of a section tag before its entries.
pub const SECTIONS_HEADER: usize = 20;

/// The 32-bit number in the four bytes from `offset` on.
pub open spec fn spec_u32_at(bytes: Seq<u8>, offset: int) -> u32 {
    (bytes[offset] as u32) | ((bytes[offset + 1] as u32) << 8) | ((bytes[offset + 2] as u32) << 16)
        | ((bytes[offset + 3] as u32) << 24)
}

/// The 64-bit number in the eight bytes from `offset` on.
pub open spec fn spec_u64_at(bytes: Seq<u8>, offset: int) -> u64 {
    (spec_u32_at(bytes, offset) as u64) | ((spec_u32_at(bytes, offset + 4) as u64) << 32)
}

pub fn read_u32(bytes: &[u8], offset: usize) -> (result: u32)
    requires
        offset + 4 <= bytes@.len(),
    ensures
        result == spec_u32_at(bytes@, offset as int),
{
    let limit: usize = bytes.len();
    assert(offset + 4 <= limit);
    (bytes[offset] as u32) | ((bytes[offset + 1] as u32) << 8) | ((bytes[offset + 2] as u32) << 16)
        | ((bytes[offset + 3] as u32) << 24)
}

pub fn read_u64(bytes: &[u8], offset: usize) -> (result: u64)
    requires
        offset + 8 <= bytes@.len(),
    ensures
        result == spec_u64_at(bytes@, offset as int),
{
    let limit: usize = bytes.len();
    assert(offset + 8 <= limit);
    (read_u32(bytes, offset) as u64) | ((read_u32(bytes, offset + 4) as u64) << 32)
}

/// The kind of tag that `number` names.
pub open spec fn spec_tag_kind(number: u32) -> Option<TagTypes> {
    if number == 0 {
        Some(TagTypes::EndTag)
    } else if number == 1 {
        Some(TagTypes::BootCommandLine)
    } else if number == 2 {
        Some(TagTypes::BootLoaderName)
    } else if number == 3 {
        Some(TagTypes::Modules)
    } else if number == 4 {
        Some(TagTypes::BasicMemoryInformation)
    } else if number == 5 {
        Some(TagTypes::BiosBootDevice)
    } else if number == 6 {
        Some(TagTypes::MemoryMap)
    } else if number == 7 {
        Some(TagTypes::VBEInfo)
    } else if number == 8 {
        Some(TagTypes::FramebufferInfo)
    } else if number == 9 {
        Some(TagTypes::ElfSymbols)
    } else if number == 10 {
        Some(TagTypes::APMTable)
    } else {
        None
    }
}

/// The header of the tag that begins at `offset`, if a header of a known kind
/// lies there.
pub open spec fn spec_tag_at(bytes: Seq<u8>, offset: int) -> Option<Tag> {
    if offset < 0 || offset + HEADER_SIZE > bytes.len() {
        None
    } else {
        match spec_tag_kind(spec_u32_at(bytes, offset)) {
            None => None,
            Some(typ) => Some(Tag { typ, size: spec_u32_at(bytes, offset + 4) }),
        }
    }
}

/// Whether the walk over the tags can go on behind the tag `tag` at `offset`:
/// the tag is no end tag, holds at least its header, and the next tag begins
/// within the bytes.
pub open spec fn spec_has_next(bytes: Seq<u8>, offset: int, tag: Tag) -> bool {
    &&& tag.typ != TagTypes::EndTag
    &&& tag.size >= HEADER_SIZE
    &&& offset + Tag::spec_stride(tag.size) <= bytes.len()
}

/// The headers of the tags from `offset` up to and with the end tag, each tag
/// beginning at the next multiple of 8 behind the one before; `None` where the
/// bytes end before an end tag or a tag is of no known kind or shorter than
/// its header.
pub open spec fn spec_tags(bytes: Seq<u8>, offset: int) -> Option<Seq<Tag>>
    decreases bytes.len() - offset,
{
    if spec_tag_at(bytes, offset) is None {
        None
    } else if spec_tag_at(bytes, offset)->Some_0.typ == TagTypes::EndTag {
        Some(seq![spec_tag_at(bytes, offset)->Some_0])
    } else if !spec_has_next(bytes, offset, spec_tag_at(bytes, offset)->Some_0) {
        None
    } else if spec_tags(
        bytes,
        offset + Tag::spec_stride(spec_tag_at(bytes, offset)->Some_0.size),
    ) is None {
        None
    } else {
        Some(
            seq![spec_tag_at(bytes, offset)->Some_0] + spec_tags(
                bytes,
                offset + Tag::spec_stride(spec_tag_at(bytes, offset)->Some_0.size),
            )->Some_0,
        )
    }
}

/// The place of the first tag of kind `kind` from `offset` on, before the end
/// tag.
pub open spec fn spec_find_tag(bytes: Seq<u8>, offset: int, kind: TagTypes) -> Option<int>
    decreases bytes.len() - offset,
{
    if spec_tag_at(bytes, offset) is None {
        None
    } else if spec_tag_at(bytes, offset)->Some_0.typ == TagTypes::EndTag {
        None
    } else if spec_tag_at(bytes, offset)->Some_0.typ == kind {
        Some(offset)
    } else if !spec_has_next(bytes, offset, spec_tag_at(bytes, offset)->Some_0) {
        None
    } else {
        spec_find_tag(
            bytes,
            offset + Tag::spec_stride(spec_tag_at(bytes, offset)->Some_0.size),
            kind,
        )
    }
}

/// The header of the tag that begins at `offset`.
pub fn tag_at(bytes: &[u8], offset: usize) -> (result: Option<Tag>)
    ensures
        result == spec_tag_at(bytes@, offset as int),
{
    if bytes.len() < HEADER_SIZE || offset > bytes.len() - HEADER_SIZE {
        return None;
    }
    let number = read_u32(bytes, offset);
    let size = read_u32(bytes, offset + 4);
    match TagTypes::from_number(number) {
        None => None,
        Some(typ) => Some(Tag { typ, size }),
    }
}

/// Where the tag behind `tag`, which begins at `offset`, begins; `None` where
/// the walk ends.
fn next_offset(bytes: &[u8], offset: usize, tag: &Tag) -> (result: Option<usize>)
    requires
        offset + HEADER_SIZE <= bytes@.len(),
    ensures
        match result {
            Some(next) => spec_has_next(bytes@, offset as int, *tag) && next == offset
                + Tag::spec_stride(tag.size) && next > offset,
            None => !spec_has_next(bytes@, offset as int, *tag),
        },
{
    match tag.typ {
        TagTypes::EndTag => {
            return None;
        },
        _ => {},
    }
    if tag.size < HEADER_SIZE as u32 {
        return None;
    }
    let stride: u64 = tag.stride();
    if stride > (bytes.len() - offset) as u64 {
        return None;
    }
    Some(offset + stride as usize)
}

/// The headers of the tags of the boot information in `bytes`, from the first
/// tag behind the header of the information up to and with the end tag.
pub fn parse_tags(bytes: &[u8]) -> (result: Option<Vec<Tag>>)
    ensures
        match result {
            Some(tags) => spec_tags(bytes@, HEADER_SIZE as int) == Some(tags@),
            None => spec_tags(bytes@, HEADER_SIZE as int) is None,
        },
{
    let mut tags: Vec<Tag> = Vec::new();
    let mut offset: usize = HEADER_SIZE;
    loop
        invariant
            match spec_tags(bytes@, offset as int) {
                Some(rest) => spec_tags(bytes@, HEADER_SIZE as int) == Some(tags@ + rest),
                None => spec_tags(bytes@, HEADER_SIZE as int) is None,
            },
        decreases bytes@.len() - offset,
    {
        let tag = match tag_at(bytes, offset) {
            None => {
                return None;
            },
            Some(tag) => tag,
        };
        let ghost before = tags@;
        tags.push(tag);
        match next_offset(bytes, offset, &tag) {
            None => {
                match tag.typ {
                    TagTypes::EndTag => {
                        assert(before + seq![tag] =~= tags@);
                        return Some(tags);
                    },
                    _ => {
                        return None;
                    },
                }
            },
            Some(next) => {
                proof {
                    let rest = spec_tags(bytes@, next as int);
                    if rest is Some {
                        assert(before + (seq![tag] + rest->Some_0) =~= tags@ + rest->Some_0);
                    }
                }
                offset = next;
            },
        }
    }
}

/// The place in `bytes` of the first tag of kind `kind` before the end tag.
pub fn find_tag(bytes: &[u8], kind: TagTypes) -> (result: Option<usize>)
    ensures
        match result {
            Some(offset) => spec_find_tag(bytes@, HEADER_SIZE as int, kind) == Some(offset as int)
                && offset + HEADER_SIZE <= bytes@.len(),
            None => spec_find_tag(bytes@, HEADER_SIZE as int, kind) is None,
        },
{
    let mut offset: usize = HEADER_SIZE;
    loop
        invariant
            spec_find_tag(bytes@, offset as int, kind) == spec_find_tag(
                bytes@,
                HEADER_SIZE as int,
                kind,
            ),
        decreases bytes@.len() - offset,
    {
        let tag = match tag_at(bytes, offset) {
            None => {
                return None;
            },
            Some(tag) => tag,
        };
        match tag.typ {
            TagTypes::EndTag => {
                return None;
            },
            _ => {},
        }
        if tag.typ == kind {
            return Some(offset);
        }
        match next_offset(bytes, offset, &tag) {
            None => {
                return None;
            },
            Some(next) => {
                offset = next;
            },
        }
    }
}

/// The entry of the memory map in the 24 bytes from `offset` on: the address,
/// the length, the kind and a reserved field.
pub open spec fn spec_entry_at(bytes: Seq<u8>, offset: int) -> MemoryMapEntry {
    MemoryMapEntry {
        address: spec_u64_at(bytes, offset),
        length: spec_u64_at(bytes, offset + 8),
        typ: spec_u32_at(bytes, offset + 16),
        zero: spec_u32_at(bytes, offset + 20),
    }
}

/// The entries of a memory map from `offset` up to `end`, `entry_size` bytes
/// apart; `None` where an entry would be shorter than the kernel reads it or
/// would not end within `end`.
pub open spec fn spec_entries(bytes: Seq<u8>, offset: int, end: int, entry_size: u32) -> Option<
    Seq<MemoryMapEntry>,
>
    decreases end - offset,
{
    if offset >= end {
        Some(seq![])
    } else if entry_size < MEMORY_MAP_ENTRY || offset + entry_size > end {
        None
    } else if spec_entries(bytes, offset + entry_size, end, entry_size) is None {
        None
    } else {
        Some(
            seq![spec_entry_at(bytes, offset)] + spec_entries(
                bytes,
                offset + entry_size,
                end,
                entry_size,
            )->Some_0,
        )
    }
}

/// What a memory map tag holds: its size, the size and the version of its
/// entries, and the entries.
pub struct MemoryMapView {
    pub size: u32,
    pub entry_size: u32,
    pub entry_version: u32,
    pub entries: Seq<MemoryMapEntry>,
}

/// The memory map tag that begins at `offset`: `None` where no tag of that
/// kind lies there whole, or its entries do not fill it.
pub open spec fn spec_memory_map(bytes: Seq<u8>, offset: int) -> Option<MemoryMapView> {
    if offset < 0 || offset + MEMORY_MAP_HEADER > bytes.len() {
        None
    } else if spec_u32_at(bytes, offset) != 6 {
        None
    } else if spec_u32_at(bytes, offset + 4) < MEMORY_MAP_HEADER || offset + spec_u32_at(
        bytes,
        offset + 4,
    ) > bytes.len() {
        None
    } else {
        match spec_entries(
            bytes,
            offset + MEMORY_MAP_HEADER,
            offset + spec_u32_at(bytes, offset + 4),
            spec_u32_at(bytes, offset + 8),
        ) {
            None => None,
            Some(entries) => Some(
                MemoryMapView {
                    size: spec_u32_at(bytes, offset + 4),
                    entry_size: spec_u32_at(bytes, offset + 8),
                    entry_version: spec_u32_at(bytes, offset + 12),
                    entries,
                },
            ),
        }
    }
}

/// The memory map tag that begins at `offset` of `bytes`.
pub fn parse_memory_map(bytes: &[u8], offset: usize) -> (result: Option<MemoryMapTag>)
    ensures
        match result {
            Some(tag) => spec_memory_map(bytes@, offset as int) == Some(
                MemoryMapView {
                    size: tag.size,
                    entry_size: tag.entry_size,
                    entry_version: tag.entry_version,
                    entries: tag.entries@,
                },
            ) && tag.typ == TagTypes::MemoryMap,
            None => spec_memory_map(bytes@, offset as int) is None,
        },
{
    if bytes.len() < MEMORY_MAP_HEADER || offset > bytes.len() - MEMORY_MAP_HEADER {
        return None;
    }
    if read_u32(bytes, offset) != 6 {
        return None;
    }
    let size = read_u32(bytes, offset + 4);
    let entry_size = read_u32(bytes, offset + 8);
    let entry_version = read_u32(bytes, offset + 12);
    if size < MEMORY_MAP_HEADER as u32 || size as u64 > (bytes.len() - offset) as u64 {
        return None;
    }
    let end: usize = offset + size as usize;
    let first: usize = offset + MEMORY_MAP_HEADER;
    let mut entries: Vec<MemoryMapEntry> = Vec::new();
    let mut current: usize = first;
    while current < end
        invariant
            first <= current,
            end <= bytes@.len(),
            offset + MEMORY_MAP_HEADER <= bytes@.len(),
            first == offset + MEMORY_MAP_HEADER,
            end == offset + size,
            spec_u32_at(bytes@, offset as int) == 6,
            size == spec_u32_at(bytes@, offset + 4),
            size >= MEMORY_MAP_HEADER,
            entry_size == spec_u32_at(bytes@, offset + 8),
            match spec_entries(bytes@, current as int, end as int, entry_size) {
                Some(rest) => spec_entries(bytes@, first as int, end as int, entry_size) == Some(
                    entries@ + rest,
                ),
                None => spec_entries(bytes@, first as int, end as int, entry_size) is None,
            },
        decreases end - current,
    {
        if entry_size < MEMORY_MAP_ENTRY as u32 || entry_size as u64 > (end - current) as u64 {
            return None;
        }
        let entry = MemoryMapEntry {
            address: read_u64(bytes, current),
            length: read_u64(bytes, current + 8),
            typ: read_u32(bytes, current + 16),
            zero: read_u32(bytes, current + 20),
        };
        proof {
            let rest = spec_entries(bytes@, current + entry_size, end as int, entry_size);
            if rest is Some {
                assert(entries@ + (seq![entry] + rest->Some_0) =~= entries@.push(entry)
                    + rest->Some_0);
            }
        }
        entries.push(entry);
        current = current + entry_size as usize;
    }
    assert(entries@ + Seq::<MemoryMapEntry>::empty() =~= entries@);
    Some(MemoryMapTag { typ: TagTypes::MemoryMap, size, entry_size, entry_version, entries })
}

/// The kind of section that `number` names.
pub open spec fn spec_section_type(number: u32) -> Option<ElfSectionType> {
    if number == 0 {
        Some(ElfSectionType::Unused)
    } else if number == 1 {
        Some(ElfSectionType::ProgramSection)
    } else if number == 2 {
        Some(ElfSectionType::LinkerSymbolTable)
    } else if number == 3 {
        Some(ElfSectionType::StringTable)
    } else if number == 4 {
        Some(ElfSectionType::RelaRelocation)
    } else if number == 5 {
        Some(ElfSectionType::SymbolHashTable)
    } else if number == 6 {
        Some(ElfSectionType::DynamicLinkingTable)
    } else if number == 7 {
        Some(ElfSectionType::Note)
    } else if number == 8 {
        Some(ElfSectionType::Uninitialized)
    } else if number == 9 {
        Some(ElfSectionType::RelRelocation)
    } else if number == 10 {
        Some(ElfSectionType::Reserved)
    } else if number == 11 {
        Some(ElfSectionType::DynamicLoaderSymbolTable)
    } else if number == 0x6000_0000 {
        Some(ElfSectionType::EnvironmentSpecific)
    } else if number == 0x7000_0000 {
        Some(ElfSectionType::ProcessorSpecific)
    } else {
        None
    }
}

pub fn section_type(number: u32) -> (result: Option<ElfSectionType>)
    ensures
        result == spec_section_type(number),
{
    match number {
        0 => Some(ElfSectionType::Unused),
        1 => Some(ElfSectionType::ProgramSection),
        2 => Some(ElfSectionType::LinkerSymbolTable),
        3 => Some(ElfSectionType::StringTable),
        4 => Some(ElfSectionType::RelaRelocation),
        5 => Some(ElfSectionType::SymbolHashTable),
        6 => Some(ElfSectionType::DynamicLinkingTable),
        7 => Some(ElfSectionType::Note),
        8 => Some(ElfSectionType::Uninitialized),
        9 => Some(ElfSectionType::RelRelocation),
        10 => Some(ElfSectionType::Reserved),
        11 => Some(ElfSectionType::DynamicLoaderSymbolTable),
        0x6000_0000 => Some(ElfSectionType::EnvironmentSpecific),
        0x7000_0000 => Some(ElfSectionType::ProcessorSpecific),
        _ => None,
    }
}

/// The section header in the bytes from `offset` on, read in the width `width`
/// (32 or 64): the fields lie one behind the other without padding. `None`
/// where the number of its kind names none.
pub open spec fn spec_section_at(bytes: Seq<u8>, offset: int, width: u8) -> Option<
    ElfSectionHeaderWrapper,
> {
    match spec_section_type(spec_u32_at(bytes, offset + 4)) {
        None => None,
        Some(typ) => Some(
            if width == 32 {
                ElfSectionHeaderWrapper {
                    size: 32,
                    header: ElfSectionHeader64 {
                        name: spec_u32_at(bytes, offset),
                        typ,
                        flags: spec_u32_at(bytes, offset + 8) as u64,
                        addr: spec_u32_at(bytes, offset + 12) as u64,
                        offset: spec_u32_at(bytes, offset + 16) as u64,
                        size: spec_u32_at(bytes, offset + 20) as u64,
                        link: spec_u32_at(bytes, offset + 24),
                        addr_align: spec_u32_at(bytes, offset + 28) as u64,
                        entry_size: spec_u32_at(bytes, offset + 32) as u64,
                    },
                }
            } else {
                ElfSectionHeaderWrapper {
                    size: 64,
                    header: ElfSectionHeader64 {
                        name: spec_u32_at(bytes, offset),
                        typ,
                        flags: spec_u64_at(bytes, offset + 8),
                        addr: spec_u64_at(bytes, offset + 16),
                        offset: spec_u64_at(bytes, offset + 24),
                        size: spec_u64_at(bytes, offset + 32),
                        link: spec_u32_at(bytes, offset + 40),
                        addr_align: spec_u64_at(bytes, offset + 44),
                        entry_size: spec_u64_at(bytes, offset + 52),
                    },
                }
            },
        ),
    }
}

/// The next `remaining` section headers from `offset` on, `entry_size` bytes
/// apart; `None` where the entry size is neither 40 nor 64, the bytes end
/// before the last header, or a header is of no known kind.
pub open spec fn spec_sections(bytes: Seq<u8>, offset: int, remaining: nat, entry_size: u32) -> Option<
    Seq<ElfSectionHeaderWrapper>,
>
    decreases remaining,
{
    if remaining == 0 {
        Some(seq![])
    } else if ElfSymbolsTag::spec_width(entry_size) is None || offset + entry_size > bytes.len() {
        None
    } else if spec_section_at(bytes, offset, ElfSymbolsTag::spec_width(entry_size)->Some_0) is None
        || spec_sections(bytes, offset + entry_size, (remaining - 1) as nat, entry_size) is None {
        None
    } else {
        Some(
            seq![
                spec_section_at(bytes, offset, ElfSymbolsTag::spec_width(entry_size)->Some_0)->Some_0,
            ] + spec_sections(
                bytes,
                offset + entry_size,
                (remaining - 1) as nat,
                entry_size,
            )->Some_0,
        )
    }
}

/// What a section tag holds: its size, the number and the size of its
/// entries, the index of the section of names, and the section headers.
pub struct SectionsView {
    pub size: u32,
    pub number_of_entries: u32,
    pub entry_size: u32,
    pub shndx: u32,
    pub sections: Seq<ElfSectionHeaderWrapper>,
}

/// The section tag that begins at `offset`; `None` where no tag of that kind
/// lies there whole.
pub open spec fn spec_elf_sections(bytes: Seq<u8>, offset: int) -> Option<SectionsView> {
    if offset < 0 || offset + SECTIONS_HEADER > bytes.len() {
        None
    } else if spec_u32_at(bytes, offset) != 9 {
        None
    } else {
        match spec_sections(
            bytes,
            offset + SECTIONS_HEADER,
            spec_u32_at(bytes, offset + 8) as nat,
            spec_u32_at(bytes, offset + 12),
        ) {
            None => None,
            Some(sections) => Some(
                SectionsView {
                    size: spec_u32_at(bytes, offset + 4),
                    number_of_entries: spec_u32_at(bytes, offset + 8),
                    entry_size: spec_u32_at(bytes, offset + 12),
                    shndx: spec_u32_at(bytes, offset + 16),
                    sections,
                },
            ),
        }
    }
}

/// The section header in the bytes from `offset` on, read in the width
/// `width`.
pub fn section_at(bytes: &[u8], offset: usize, width: u8) -> (result: Option<
    ElfSectionHeaderWrapper,
>)
    requires
        width == 32 || width == 64,
        width == 32 ==> offset + 40 <= bytes@.len(),
        width == 64 ==> offset + 64 <= bytes@.len(),
    ensures
        result == spec_section_at(bytes@, offset as int, width),
{
    let limit: usize = bytes.len();
    assert(offset + 40 <= limit);
    let typ = match section_type(read_u32(bytes, offset + 4)) {
        None => {
            return None;
        },
        Some(typ) => typ,
    };
    if width == 32 {
        Some(
            ElfSectionHeaderWrapper {
                size: 32,
                header: ElfSectionHeader64 {
                    name: read_u32(bytes, offset),
                    typ,
                    flags: read_u32(bytes, offset + 8) as u64,
                    addr: read_u32(bytes, offset + 12) as u64,
                    offset: read_u32(bytes, offset + 16) as u64,
                    size: read_u32(bytes, offset + 20) as u64,
                    link: read_u32(bytes, offset + 24),
                    addr_align: read_u32(bytes, offset + 28) as u64,
                    entry_size: read_u32(bytes, offset + 32) as u64,
                },
            },
        )
    } else {
        Some(
            ElfSectionHeaderWrapper {
                size: 64,
                header: ElfSectionHeader64 {
                    name: read_u32(bytes, offset),
                    typ,
                    flags: read_u64(bytes, offset + 8),
                    addr: read_u64(bytes, offset + 16),
                    offset: read_u64(bytes, offset + 24),
                    size: read_u64(bytes, offset + 32),
                    link: read_u32(bytes, offset + 40),
                    addr_align: read_u64(bytes, offset + 44),
                    entry_size: read_u64(bytes, offset + 52),
                },
            },
        )
    }
}

/// The section tag that begins at `offset` of `bytes`.
pub fn parse_elf_sections(bytes: &[u8], offset: usize) -> (result: Option<ElfSymbolsTag>)
    ensures
        match result {
            Some(tag) => spec_elf_sections(bytes@, offset as int) == Some(
                SectionsView {
                    size: tag.size,
                    number_of_entries: tag.number_of_entries,
                    entry_size: tag.entry_size,
                    shndx: tag.shndx,
                    sections: tag.sections@,
                },
            ) && tag.typ == TagTypes::ElfSymbols,
            None => spec_elf_sections(bytes@, offset as int) is None,
        },
{
    if bytes.len() < SECTIONS_HEADER || offset > bytes.len() - SECTIONS_HEADER {
        return None;
    }
    if read_u32(bytes, offset) != 9 {
        return None;
    }
    let size = read_u32(bytes, offset + 4);
    let number_of_entries = read_u32(bytes, offset + 8);
    let entry_size = read_u32(bytes, offset + 12);
    let shndx = read_u32(bytes, offset + 16);
    let first: usize = offset + SECTIONS_HEADER;
    let mut sections: Vec<ElfSectionHeaderWrapper> = Vec::new();
    let mut current: usize = first;
    let mut remaining: u32 = number_of_entries;
    while remaining > 0
        invariant
            current <= bytes@.len(),
            offset + SECTIONS_HEADER <= bytes@.len(),
            first == offset + SECTIONS_HEADER,
            spec_u32_at(bytes@, offset as int) == 9,
            number_of_entries == spec_u32_at(bytes@, offset + 8),
            entry_size == spec_u32_at(bytes@, offset + 12),
            match spec_sections(bytes@, current as int, remaining as nat, entry_size) {
                Some(rest) => spec_sections(
                    bytes@,
                    first as int,
                    number_of_entries as nat,
                    entry_size,
                ) == Some(sections@ + rest),
                None => spec_sections(bytes@, first as int, number_of_entries as nat, entry_size)
                    is None,
            },
        decreases remaining,
    {
        let width: u8 = if entry_size == 40 {
            32
        } else if entry_size == 64 {
            64
        } else {
            return None;
        };
        if entry_size as u64 > (bytes.len() - current) as u64 {
            return None;
        }
        let section = match section_at(bytes, current, width) {
            None => {
                return None;
            },
            Some(section) => section,
        };
        proof {
            let rest = spec_sections(
                bytes@,
                current + entry_size,
                (remaining - 1) as nat,
                entry_size,
            );
            if rest is Some {
                assert(sections@ + (seq![section] + rest->Some_0) =~= sections@.push(section)
                    + rest->Some_0);
            }
        }
        sections.push(section);
        current = current + entry_size as usize;
        remaining = remaining - 1;
    }
    assert(sections@ + Seq::<ElfSectionHeaderWrapper>::empty() =~= sections@);
    Some(
        ElfSymbolsTag {
            typ: TagTypes::ElfSymbols,
            size,
            number_of_entries,
            entry_size,
            shndx,
            sections,
        },
    )
}

/// Whether `bytes` are a boot information that can lie at `address`: the
/// address is a multiple of 8, the size that the information gives of itself
/// is the number of the bytes, its reserved field is zero, and its tags end
/// with an end tag where the information ends.
pub open spec fn spec_is_boot_information(address: usize, bytes: Seq<u8>) -> bool {
    &&& address % 8 == 0
    &&& bytes.len() >= HEADER_SIZE
    &&& spec_u32_at(bytes, 0) == bytes.len()
    &&& spec_u32_at(bytes, 4) == 0
    &&& spec_tags(bytes, HEADER_SIZE as int) is Some
    &&& spec_has_valid_end_tag(
        spec_u32_at(bytes, 0),
        spec_tags(bytes, HEADER_SIZE as int)->Some_0,
    )
}

/// The memory map of the boot information in `bytes`, if the information has
/// a tag for it and the tag is whole.
pub open spec fn spec_memory_map_of(bytes: Seq<u8>) -> Option<MemoryMapView> {
    match spec_find_tag(bytes, HEADER_SIZE as int, TagTypes::MemoryMap) {
        None => None,
        Some(offset) => spec_memory_map(bytes, offset),
    }
}

/// The sections of the boot information in `bytes`, if the information has a
/// tag for them and the tag is whole.
pub open spec fn spec_elf_sections_of(bytes: Seq<u8>) -> Option<SectionsView> {
    match spec_find_tag(bytes, HEADER_SIZE as int, TagTypes::ElfSymbols) {
        None => None,
        Some(offset) => spec_elf_sections(bytes, offset),
    }
}

/// Reads the boot information that lies at `address` from its bytes. `None`
/// where the bytes are no boot information; else the information with its
/// memory map and its sections, each where the information has a whole tag
/// for it.
pub fn parse(address: usize, bytes: &[u8]) -> (result: Option<MultibootHeader>)
    ensures
        result is Some <==> spec_is_boot_information(address, bytes@),
        match result {
            None => true,
            Some(header) => {
                &&& header.address == address
                &&& header.total_size == bytes@.len()
                &&& header.reserved == 0
                &&& match header.memory_map {
                    Some(tag) => spec_memory_map_of(bytes@) == Some(
                        MemoryMapView {
                            size: tag.size,
                            entry_size: tag.entry_size,
                            entry_version: tag.entry_version,
                            entries: tag.entries@,
                        },
                    ),
                    None => spec_memory_map_of(bytes@) is None,
                }
                &&& match header.elf_sections {
                    Some(tag) => spec_elf_sections_of(bytes@) == Some(
                        SectionsView {
                            size: tag.size,
                            number_of_entries: tag.number_of_entries,
                            entry_size: tag.entry_size,
                            shndx: tag.shndx,
                            sections: tag.sections@,
                        },
                    ),
                    None => spec_elf_sections_of(bytes@) is None,
                }
            },
        },
{
    if address % 8 != 0 || bytes.len() < HEADER_SIZE {
        return None;
    }
    let total_size = read_u32(bytes, 0);
    let reserved = read_u32(bytes, 4);
    if total_size as u64 != bytes.len() as u64 || reserved != 0 {
        return None;
    }
    let tags = match parse_tags(bytes) {
        None => {
            return None;
        },
        Some(tags) => tags,
    };
    if !MultibootHeader::has_valid_end_tag(total_size, &tags) {
        return None;
    }
    let memory_map = match find_tag(bytes, TagTypes::MemoryMap) {
        None => None,
        Some(offset) => parse_memory_map(bytes, offset),
    };
    let elf_sections = match find_tag(bytes, TagTypes::ElfSymbols) {
        None => None,
        Some(offset) => parse_elf_sections(bytes, offset),
    };
    Some(MultibootHeader::load(address, total_size, reserved, &tags, memory_map, elf_sections))
}

} // verus!
