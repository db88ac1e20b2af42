//! The sections of the kernel image, as the boot loader reports them.
use crate::boot::multiboot_tags::TagTypes;
use crate::virtual_address::{spec_sign_extend, VirtualAddress};
use vstd::prelude::*;

verus! {

/// The kinds of section of an ELF file.
#[derive(Clone, Copy, Debug, PartialEq, Eq, Structural)]
pub enum ElfSectionType {
    /// The section header is inactive and has no section.
    Unused,
    /// The section holds what the program defines.
    ProgramSection,
    /// The section holds a linker symbol table.
    LinkerSymbolTable,
    /// The section holds a string table.
    StringTable,
    /// The section holds relocation entries with explicit addends.
    RelaRelocation,
    /// The section holds a symbol hash table.
    SymbolHashTable,
    /// The section holds dynamic linking tables.
    DynamicLinkingTable,
    /// The section holds information that marks the file in some way.
    Note,
    /// The section takes no space in the file and is else like
    /// `ProgramSection`.
    Uninitialized,
    /// The section holds relocation entries without explicit addends.
    RelRelocation,
    /// Reserved, with no meaning given.
    Reserved,
    /// The section holds a dynamic loader symbol table.
    DynamicLoaderSymbolTable,
    /// Kept for the environment.
    EnvironmentSpecific,
    /// Kept for the processor.
    ProcessorSpecific,
}

/// The flags of a section: bit 0 says writable, bit 1 allocated, bit 2
/// executable.
#[derive(Clone, Copy, Debug, PartialEq, Eq, Structural)]
pub struct ElfSectionFlags(pub u64);

impl ElfSectionFlags {
    pub open spec fn spec_is_writable(&self) -> bool {
        self.0 & 0x1 != 0
    }

    pub open spec fn spec_is_allocated(&self) -> bool {
        self.0 & 0x2 != 0
    }

    pub open spec fn spec_is_executable(&self) -> bool {
        self.0 & 0x4 != 0
    }

    /// Whether none of the three flags is set.
    pub open spec fn spec_is_none(&self) -> bool {
        !self.spec_is_allocated() && !self.spec_is_executable() && !self.spec_is_writable()
    }

    /// The names of the flags that are set, as a report shows them: writable
    /// first, then executable, then allocated; the one word for none of them.
    pub open spec fn spec_names(&self) -> Seq<&'static str> {
        if self.spec_is_none() {
            seq!["NONE"]
        } else {
            (if self.spec_is_writable() {
                seq!["WRITABLE"]
            } else {
                seq![]
            }) + (if self.spec_is_executable() {
                seq!["EXECUTABLE"]
            } else {
                seq![]
            }) + (if self.spec_is_allocated() {
                seq!["ALLOCATED"]
            } else {
                seq![]
            })
        }
    }

    pub fn is_writable(&self) -> (result: bool)
        ensures
            result == self.spec_is_writable(),
    {
        self.0 & 0x1 != 0
    }

    pub fn is_allocated(&self) -> (result: bool)
        ensures
            result == self.spec_is_allocated(),
    {
        self.0 & 0x2 != 0
    }

    pub fn is_executable(&self) -> (result: bool)
        ensures
            result == self.spec_is_executable(),
    {
        self.0 & 0x4 != 0
    }

    pub fn is_none(&self) -> (result: bool)
        ensures
            result == self.spec_is_none(),
    {
        !self.is_allocated() && !self.is_executable() && !self.is_writable()
    }

    /// The names of the flags that are set, to be joined for a report.
    pub fn names(&self) -> (result: Vec<&'static str>)
        ensures
            result@ == self.spec_names(),
    {
        let mut names: Vec<&'static str> = Vec::new();
        if self.is_none() {
            names.push("NONE");
            assert(names@ =~= self.spec_names());
            return names;
        }
        if self.is_writable() {
            names.push("WRITABLE");
        }
        if self.is_executable() {
            names.push("EXECUTABLE");
        }
        if self.is_allocated() {
            names.push("ALLOCATED");
        }
        assert(names@ =~= self.spec_names());
        names
    }
}

/// The header of a section of a 32-bit image.
#[derive(Clone, Copy, Debug)]
pub struct ElfSectionHeader32 {
    pub name: u32,
    pub typ: ElfSectionType,
    pub flags: u32,
    pub addr: u32,
    pub offset: u32,
    pub size: u32,
    pub link: u32,
    pub addr_align: u32,
    pub entry_size: u32,
}

/// The header of a section of a 64-bit image.
#[derive(Clone, Copy, Debug)]
pub struct ElfSectionHeader64 {
    pub name: u32,
    pub typ: ElfSectionType,
    pub flags: u64,
    pub addr: u64,
    pub offset: u64,
    pub size: u64,
    pub link: u32,
    pub addr_align: u64,
    pub entry_size: u64,
}

/// What the kernel reads of a section header of either width.
pub trait ElfSectionHeader {
    spec fn spec_flags(&self) -> ElfSectionFlags;

    /// The address of the section as the header gives it.
    spec fn spec_addr(&self) -> u64;

    /// The size of the section as the header gives it.
    spec fn spec_size(&self) -> u64;

    spec fn spec_type(&self) -> ElfSectionType;

    fn get_flags(&self) -> (result: ElfSectionFlags)
        ensures
            result == self.spec_flags(),
    ;

    /// The address at which the section is loaded, with bit 47 copied into the
    /// bits above it.
    fn get_addr(&self) -> (result: VirtualAddress)
        ensures
            result@ == spec_sign_extend(self.spec_addr() as usize as u64),
            result.wf(),
    ;

    fn get_size(&self) -> (result: usize)
        ensures
            result == self.spec_size() as usize,
    ;

    fn get_type(&self) -> (result: ElfSectionType)
        ensures
            result == self.spec_type(),
    ;
}

impl ElfSectionHeader for ElfSectionHeader32 {
    open spec fn spec_flags(&self) -> ElfSectionFlags {
        ElfSectionFlags(self.flags as u64)
    }

    open spec fn spec_addr(&self) -> u64 {
        self.addr as u64
    }

    open spec fn spec_size(&self) -> u64 {
        self.size as u64
    }

    open spec fn spec_type(&self) -> ElfSectionType {
        self.typ
    }

    fn get_flags(&self) -> (result: ElfSectionFlags) {
        ElfSectionFlags(self.flags as u64)
    }

    fn get_addr(&self) -> (result: VirtualAddress) {
        VirtualAddress::new_truncate(self.addr as usize)
    }

    fn get_size(&self) -> (result: usize) {
        self.size as usize
    }

    fn get_type(&self) -> (result: ElfSectionType) {
        self.typ
    }
}

impl ElfSectionHeader for ElfSectionHeader64 {
    open spec fn spec_flags(&self) -> ElfSectionFlags {
        ElfSectionFlags(self.flags)
    }

    open spec fn spec_addr(&self) -> u64 {
        self.addr
    }

    open spec fn spec_size(&self) -> u64 {
        self.size
    }

    open spec fn spec_type(&self) -> ElfSectionType {
        self.typ
    }

    fn get_flags(&self) -> (result: ElfSectionFlags) {
        ElfSectionFlags(self.flags)
    }

    fn get_addr(&self) -> (result: VirtualAddress) {
        VirtualAddress::new_truncate(self.addr as usize)
    }

    fn get_size(&self) -> (result: usize) {
        self.size as usize
    }

    fn get_type(&self) -> (result: ElfSectionType) {
        self.typ
    }
}

/// A section header of either width: `size` is 32 or 64 and says which of the
/// two the header was read as. A 32-bit header is held with its fields
/// widened.
#[derive(Clone, Copy, Debug)]
pub struct ElfSectionHeaderWrapper {
    pub size: u8,
    pub header: ElfSectionHeader64,
}

impl ElfSectionHeaderWrapper {
    pub fn from_32(header: ElfSectionHeader32) -> (result: ElfSectionHeaderWrapper)
        ensures
            result.size == 32,
            result.spec_flags() == header.spec_flags(),
            result.spec_addr() == header.spec_addr(),
            result.spec_size() == header.spec_size(),
            result.spec_type() == header.spec_type(),
    {
        ElfSectionHeaderWrapper {
            size: 32,
            header: ElfSectionHeader64 {
                name: header.name,
                typ: header.typ,
                flags: header.flags as u64,
                addr: header.addr as u64,
                offset: header.offset as u64,
                size: header.size as u64,
                link: header.link,
                addr_align: header.addr_align as u64,
                entry_size: header.entry_size as u64,
            },
        }
    }

    pub fn from_64(header: ElfSectionHeader64) -> (result: ElfSectionHeaderWrapper)
        ensures
            result.size == 64,
            result.header == header,
    {
        ElfSectionHeaderWrapper { size: 64, header }
    }

    /// Whether the section is in use and has one of the three flags set.
    pub open spec fn spec_is_used(&self) -> bool {
        self.spec_type() != ElfSectionType::Unused && !self.spec_flags().spec_is_none()
    }

    /// Whether the section is in use and takes up memory when the image runs.
    pub open spec fn spec_is_allocated(&self) -> bool {
        self.spec_type() != ElfSectionType::Unused && self.spec_flags().spec_is_allocated()
    }

    /// The first address of the section.
    pub open spec fn spec_start(&self) -> int {
        spec_sign_extend(self.spec_addr() as usize as u64) as int
    }

    /// The first address after the section.
    pub open spec fn spec_end(&self) -> int {
        self.spec_start() + self.spec_size() as usize
    }

    /// Whether `address` lies in the section.
    pub fn contains(&self, address: &VirtualAddress) -> (result: bool)
        ensures
            result == (self.spec_start() <= address@ < self.spec_end()),
    {
        let start: usize = self.get_addr().value();
        let size: usize = self.get_size();
        let value: usize = address.value();
        start <= value && value - start < size
    }
}

impl ElfSectionHeader for ElfSectionHeaderWrapper {
    open spec fn spec_flags(&self) -> ElfSectionFlags {
        self.header.spec_flags()
    }

    open spec fn spec_addr(&self) -> u64 {
        self.header.spec_addr()
    }

    open spec fn spec_size(&self) -> u64 {
        self.header.spec_size()
    }

    open spec fn spec_type(&self) -> ElfSectionType {
        self.header.spec_type()
    }

    fn get_flags(&self) -> (result: ElfSectionFlags) {
        self.header.get_flags()
    }

    fn get_addr(&self) -> (result: VirtualAddress) {
        self.header.get_addr()
    }

    fn get_size(&self) -> (result: usize) {
        self.header.get_size()
    }

    fn get_type(&self) -> (result: ElfSectionType) {
        self.header.get_type()
    }
}

/// The tag of the boot information that holds the section headers of the
/// kernel image.
pub struct ElfSymbolsTag {
    pub typ: TagTypes,
    pub size: u32,
    pub number_of_entries: u32,
    pub entry_size: u32,
    pub shndx: u32,
    pub sections: Vec<ElfSectionHeaderWrapper>,
}

/// The sections of `sections` that are in use, in their order.
pub open spec fn spec_used(sections: Seq<ElfSectionHeaderWrapper>) -> Seq<ElfSectionHeaderWrapper> {
    sections.filter(|section: ElfSectionHeaderWrapper| section.spec_is_used())
}

/// The sections of `sections` that take up memory, in their order.
pub open spec fn spec_allocated(sections: Seq<ElfSectionHeaderWrapper>) -> Seq<
    ElfSectionHeaderWrapper,
> {
    sections.filter(|section: ElfSectionHeaderWrapper| section.spec_is_allocated())
}

impl ElfSymbolsTag {
    /// The width of the section headers that the tag holds: 32 for entries of
    /// 40 bytes, 64 for entries of 64 bytes.
    pub open spec fn spec_width(entry_size: u32) -> Option<u8> {
        if entry_size == 40 {
            Some(32u8)
        } else if entry_size == 64 {
            Some(64u8)
        } else {
            None
        }
    }

    /// The sections in use that have a flag set.
    pub fn used(&self) -> (result: Vec<ElfSectionHeaderWrapper>)
        ensures
            result@ == spec_used(self.sections@),
    {
        let mut found: Vec<ElfSectionHeaderWrapper> = Vec::new();
        let mut index: usize = 0;
        while index < self.sections.len()
            invariant
                index <= self.sections@.len(),
                found@ == spec_used(self.sections@.take(index as int)),
            decreases self.sections@.len() - index,
        {
            let section = self.sections[index];
            proof {
                reveal(Seq::filter);
                assert(self.sections@.take(index + 1).drop_last() =~= self.sections@.take(
                    index as int,
                ));
            }
            if section.get_type() != ElfSectionType::Unused && !section.get_flags().is_none() {
                found.push(section);
            }
            index = index + 1;
        }
        assert(self.sections@.take(index as int) =~= self.sections@);
        found
    }

    /// The sections in use that take up memory when the image runs.
    pub fn allocated(&self) -> (result: Vec<ElfSectionHeaderWrapper>)
        ensures
            result@ == spec_allocated(self.sections@),
    {
        let mut found: Vec<ElfSectionHeaderWrapper> = Vec::new();
        let mut index: usize = 0;
        while index < self.sections.len()
            invariant
                index <= self.sections@.len(),
                found@ == spec_allocated(self.sections@.take(index as int)),
            decreases self.sections@.len() - index,
        {
            let section = self.sections[index];
            proof {
                reveal(Seq::filter);
                assert(self.sections@.take(index + 1).drop_last() =~= self.sections@.take(
                    index as int,
                ));
            }
            if section.get_type() != ElfSectionType::Unused && section.get_flags().is_allocated() {
                found.push(section);
            }
            index = index + 1;
        }
        assert(self.sections@.take(index as int) =~= self.sections@);
        found
    }
}

/// Walks the section headers of a tag in their order.
pub struct ElfSectionHeaderIterator<'a> {
    tag: &'a ElfSymbolsTag,
    position: usize,
    entry_size: u32,
    remaining_sections: u32,
}

impl<'a> ElfSectionHeaderIterator<'a> {
    /// The section headers of the tag that is walked.
    pub closed spec fn spec_sections(&self) -> Seq<ElfSectionHeaderWrapper> {
        self.tag.sections@
    }

    /// How many headers have been handed out.
    pub closed spec fn spec_position(&self) -> int {
        self.position as int
    }

    /// How many headers the tag says are still to come.
    pub closed spec fn spec_remaining(&self) -> int {
        self.remaining_sections as int
    }

    /// The size of an entry as the tag gives it.
    pub closed spec fn spec_entry_size(&self) -> u32 {
        self.entry_size
    }

    pub fn new(elf_symbols_tag: &'a ElfSymbolsTag) -> (result: ElfSectionHeaderIterator<'a>)
        ensures
            result.spec_sections() == elf_symbols_tag.sections@,
            result.spec_position() == 0,
            result.spec_remaining() == elf_symbols_tag.number_of_entries,
            result.spec_entry_size() == elf_symbols_tag.entry_size,
    {
        ElfSectionHeaderIterator {
            tag: elf_symbols_tag,
            position: 0,
            entry_size: elf_symbols_tag.entry_size,
            remaining_sections: elf_symbols_tag.number_of_entries,
        }
    }

    /// The next section header, read in the width that the entry size of the
    /// tag stands for; `None` when the tag has no more. The entry size must be
    /// 40 or 64 unless no header is left.
    pub fn next(&mut self) -> (result: Option<ElfSectionHeaderWrapper>)
        requires
            old(self).spec_remaining() > 0 ==> ElfSymbolsTag::spec_width(
                old(self).spec_entry_size(),
            ) is Some,
        ensures
            final(self).spec_sections() == old(self).spec_sections(),
            final(self).spec_entry_size() == old(self).spec_entry_size(),
            match result {
                Some(section) => {
                    &&& old(self).spec_remaining() > 0
                    &&& old(self).spec_position() < old(self).spec_sections().len()
                    &&& section.header == old(self).spec_sections()[old(self).spec_position()].header
                    &&& Some(section.size) == ElfSymbolsTag::spec_width(old(self).spec_entry_size())
                    &&& final(self).spec_position() == old(self).spec_position() + 1
                    &&& final(self).spec_remaining() == old(self).spec_remaining() - 1
                },
                None => {
                    &&& (old(self).spec_remaining() == 0 || old(self).spec_position() >= old(
                        self,
                    ).spec_sections().len())
                    &&& final(self).spec_position() == old(self).spec_position()
                    &&& final(self).spec_remaining() == old(self).spec_remaining()
                },
            },
    {
        if self.remaining_sections == 0 || self.position >= self.tag.sections.len() {
            return None;
        }
        let elf_section_size: u8 = if self.entry_size == 40 {
            32
        } else {
            64
        };
        let current = ElfSectionHeaderWrapper {
            size: elf_section_size,
            header: self.tag.sections[self.position].header,
        };
        self.remaining_sections = self.remaining_sections - 1;
        self.position = self.position + 1;
        Some(current)
    }
}

} // verus!
