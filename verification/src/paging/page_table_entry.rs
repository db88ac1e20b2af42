//! Entries of a page table, in the 8-byte layout that the processor reads.
use crate::physical_address::PhysicalAddress;
use vstd::prelude::*;

verus! {

pub const PRESENT: u8 = 0;

pub const WRITABLE: u8 = 1;

pub const USER_ACCESSIBLE: u8 = 2;

pub const WRITE_THROUGH_CACHING: u8 = 3;

pub const DISABLE_CACHE: u8 = 4;

pub const CPU_ACCESSED: u8 = 5;

pub const CPU_DIRTY: u8 = 6;

pub const HUGE_PAGE: u8 = 7;

pub const GLOBAL: u8 = 8;

pub const NO_EXECUTE: u8 = 63;

/// The bits of an entry that hold the address of a frame: bits 12 to 51.
pub const ADDRESS_MASK: u64 = 0x000f_ffff_ffff_f000;

/// The address that the entry `word` points to.
pub open spec fn spec_entry_address(word: u64) -> u64 {
    word & ADDRESS_MASK
}

/// Whether bit `bit` of the entry `word` is set.
pub open spec fn spec_entry_flag(word: u64, bit: u8) -> bool {
    word & (1u64 << (bit as u64)) != 0
}

/// The entry `word` with bit `bit` set to `value`.
pub open spec fn spec_with_flag(word: u64, bit: u8, value: bool) -> u64 {
    if value {
        word | (1u64 << (bit as u64))
    } else {
        word & !(1u64 << (bit as u64))
    }
}

/// The entry `word` with `address` in its address bits.
pub open spec fn spec_with_address(word: u64, address: u64) -> u64 {
    (word & !ADDRESS_MASK) | address
}

/// Whether `address` has no bit outside the address bits of an entry: it is
/// the start of a page and below 2 to the power of 52.
pub open spec fn spec_fits_entry(address: u64) -> bool {
    address & !ADDRESS_MASK == 0
}

/// The entry of a table that has just been made to point to the table at
/// `address`: present and writable.
pub open spec fn spec_table_entry(address: u64) -> u64 {
    spec_with_flag(spec_with_flag(spec_with_address(0, address), PRESENT, true), WRITABLE, true)
}

/// Writing a flag changes that flag and neither the address nor the flags of
/// the low 9 bits and bit 63 that it is not.
pub proof fn lemma_with_flag(word: u64, bit: u8, value: bool, other: u8)
    requires
        bit <= 8 || bit == 63,
        other <= 8 || other == 63,
    ensures
        spec_entry_flag(spec_with_flag(word, bit, value), bit) == value,
        other != bit ==> spec_entry_flag(spec_with_flag(word, bit, value), other)
            == spec_entry_flag(word, other),
        spec_entry_address(spec_with_flag(word, bit, value)) == spec_entry_address(word),
{
    let b = bit as u64;
    let o = other as u64;
    assert((b <= 8 || b == 63) && (o <= 8 || o == 63) ==> {
        let set = word | (1u64 << b);
        let clear = word & !(1u64 << b);
        &&& set & (1u64 << b) != 0
        &&& clear & (1u64 << b) == 0
        &&& set & 0x000f_ffff_ffff_f000 == word & 0x000f_ffff_ffff_f000
        &&& clear & 0x000f_ffff_ffff_f000 == word & 0x000f_ffff_ffff_f000
        &&& (o != b ==> set & (1u64 << o) == word & (1u64 << o) && clear & (1u64 << o) == word & (
        1u64 << o))
    }) by (bit_vector);
}

/// Writing an address that fits changes the address to it and none of the
/// flags; writing the address that is there changes nothing.
pub proof fn lemma_with_address(word: u64, address: u64, other: u8)
    requires
        spec_fits_entry(address),
        other <= 8 || other == 63,
    ensures
        spec_entry_address(spec_with_address(word, address)) == address,
        spec_entry_flag(spec_with_address(word, address), other) == spec_entry_flag(word, other),
        spec_entry_address(word) == address ==> spec_with_address(word, address) == word,
        spec_with_address(spec_with_address(word, address), address) == spec_with_address(
            word,
            address,
        ),
{
    let o = other as u64;
    assert(address & !0x000f_ffff_ffff_f000u64 == 0 && (o <= 8 || o == 63) ==> {
        let written = (word & !0x000f_ffff_ffff_f000u64) | address;
        &&& written & 0x000f_ffff_ffff_f000 == address
        &&& written & (1u64 << o) == word & (1u64 << o)
        &&& (word & 0x000f_ffff_ffff_f000 == address ==> written == word)
        &&& (written & !0x000f_ffff_ffff_f000u64) | address == written
    }) by (bit_vector);
}

/// One entry of a page table: the address of a frame in bits 12 to 51 and
/// flags around it.
#[derive(Clone, Copy, Debug, PartialEq, Eq, Structural)]
pub struct PageTableEntry(u64);

impl View for PageTableEntry {
    type V = u64;

    closed spec fn view(&self) -> u64 {
        self.0
    }
}

impl PageTableEntry {
    /// An entry that points nowhere and is not present.
    pub fn empty() -> (result: PageTableEntry)
        ensures
            result@ == 0,
    {
        PageTableEntry(0)
    }

    /// The entry with the given bits.
    pub fn from_value(value: u64) -> (result: PageTableEntry)
        ensures
            result@ == value,
    {
        PageTableEntry(value)
    }

    /// Makes the entry point to the frame at `address`, which must be the start
    /// of a page below 2 to the power of 52. The flags stay.
    pub fn set_address(&mut self, address: &PhysicalAddress)
        requires
            spec_fits_entry(address@ as u64),
        ensures
            final(self)@ == spec_with_address(old(self)@, address@ as u64),
            spec_entry_address(final(self)@) == address@,
    {
        proof {
            lemma_with_address(self.0, address@ as u64, 0);
        }
        self.0 = (self.0 & !ADDRESS_MASK) | (address.value() as u64);
    }

    pub fn value(&self) -> (result: u64)
        ensures
            result == self@,
    {
        self.0
    }

    /// The address of the frame that the entry points to.
    pub fn get_address(&self) -> (result: PhysicalAddress)
        ensures
            result@ == spec_entry_address(self@) as usize,
    {
        let address: usize = (self.0 & ADDRESS_MASK) as usize;
        PhysicalAddress::new(address)
    }

    pub fn set_writable(&mut self, value: bool)
        ensures
            final(self)@ == spec_with_flag(old(self)@, WRITABLE, value),
    {
        self.set_flag(WRITABLE, value);
    }

    /// Lets code run from the page, or forbids it: the no-execute bit is set
    /// when `value` is false.
    pub fn set_executable(&mut self, value: bool)
        ensures
            final(self)@ == spec_with_flag(old(self)@, NO_EXECUTE, !value),
    {
        self.set_flag(NO_EXECUTE, !value);
    }

    pub fn set_present(&mut self, value: bool)
        ensures
            final(self)@ == spec_with_flag(old(self)@, PRESENT, value),
    {
        self.set_flag(PRESENT, value);
    }

    pub fn is_present(&self) -> (result: bool)
        ensures
            result == spec_entry_flag(self@, PRESENT),
    {
        self.flag(PRESENT)
    }

    pub fn is_writable(&self) -> (result: bool)
        ensures
            result == spec_entry_flag(self@, WRITABLE),
    {
        self.flag(WRITABLE)
    }

    /// Whether code may run from the page: the no-execute bit is clear.
    pub fn is_executable(&self) -> (result: bool)
        ensures
            result == !spec_entry_flag(self@, NO_EXECUTE),
    {
        !self.flag(NO_EXECUTE)
    }

    fn set_flag(&mut self, bit: u8, value: bool)
        requires
            bit < 64,
        ensures
            final(self)@ == spec_with_flag(old(self)@, bit, value),
    {
        if value {
            self.0 = self.0 | (1u64 << bit);
        } else {
            self.0 = self.0 & !(1u64 << bit);
        }
    }

    fn flag(&self, bit: u8) -> (result: bool)
        requires
            bit < 64,
        ensures
            result == spec_entry_flag(self@, bit),
    {
        self.0 & (1u64 << bit) != 0
    }
}

} // verus!
