//! Virtual memory addresses in canonical form.
use crate::physical_address::{PhysicalAddress, PHYSICAL_MEMORY_OFFSET};
use vstd::prelude::*;

verus! {

/// Whether bits 47 to 63 of `raw` are all equal, so that bits 48 to 63 repeat
/// bit 47.
pub open spec fn spec_is_canonical(raw: u64) -> bool {
    raw >> 47 == 0 || raw >> 47 == 0x1ffff
}

/// Whether bits 48 to 63 of `raw` are all zero.
pub open spec fn spec_upper_bits_clear(raw: u64) -> bool {
    raw >> 48 == 0
}

/// `raw` with bit 47 copied into bits 48 to 63.
pub open spec fn spec_sign_extend(raw: u64) -> u64 {
    if raw & 0x8000_0000_0000 != 0 {
        raw | 0xffff_0000_0000_0000
    } else {
        raw & 0x0000_ffff_ffff_ffff
    }
}

/// Sign extension gives a canonical address, leaves canonical addresses as they
/// are, and never changes bits 0 to 47.
pub proof fn lemma_sign_extend(raw: u64)
    ensures
        spec_is_canonical(spec_sign_extend(raw)),
        spec_is_canonical(raw) <==> spec_sign_extend(raw) == raw,
        spec_sign_extend(raw) & 0xffff_ffff_ffff == raw & 0xffff_ffff_ffff,
        spec_upper_bits_clear(raw) && !spec_is_canonical(raw) <==> raw >> 47 == 1,
        raw <= 0xffff_ffff ==> spec_is_canonical(raw),
{
    assert(({
        let e = if raw & 0x8000_0000_0000 != 0 {
            raw | 0xffff_0000_0000_0000
        } else {
            raw & 0x0000_ffff_ffff_ffff
        };
        &&& (e >> 47 == 0 || e >> 47 == 0x1ffff)
        &&& ((raw >> 47 == 0 || raw >> 47 == 0x1ffff) <==> e == raw)
        &&& e & 0xffff_ffff_ffff == raw & 0xffff_ffff_ffff
        &&& ((raw >> 48 == 0 && !(raw >> 47 == 0 || raw >> 47 == 0x1ffff)) <==> raw >> 47 == 1)
        &&& (raw <= 0xffff_ffff ==> raw >> 47 == 0)
    })) by (bit_vector);
}

/// An address below 2 to the power of 47 is canonical, and if it is the start
/// of a page it has no bit outside bits 12 to 51.
pub proof fn lemma_lower_half(raw: u64)
    requires
        raw < 0x8000_0000_0000,
    ensures
        spec_is_canonical(raw),
        raw % 4096 == 0 ==> raw & !0x000f_ffff_ffff_f000u64 == 0,
{
    assert(raw < 0x8000_0000_0000 ==> raw >> 47 == 0 && (raw % 4096 == 0 ==> raw
        & !0x000f_ffff_ffff_f000u64 == 0)) by (bit_vector);
}

/// Whether `raw` is canonical, for callers that must test a value before they
/// hand it on.
pub fn is_canonical(raw: u64) -> (result: bool)
    ensures
        result == spec_is_canonical(raw),
{
    raw >> 47 == 0 || raw >> 47 == 0x1ffff
}

/// The reason why a raw value was refused as a virtual address: bits 48 to 63
/// were neither clear nor a copy of bit 47.
#[derive(Clone, Copy, Debug, PartialEq, Eq, Structural)]
pub struct InvalidAddress(pub usize);

/// A virtual address. Bits 48 to 63 of its value always repeat bit 47.
#[derive(Clone, Copy, Debug, PartialEq, Eq, Structural, PartialOrd, Ord)]
pub struct VirtualAddress(usize);

impl View for VirtualAddress {
    type V = usize;

    closed spec fn view(&self) -> usize {
        self.0
    }
}

impl VirtualAddress {
    /// Every address that this type's constructors give is canonical.
    pub open spec fn wf(&self) -> bool {
        spec_is_canonical(self@ as u64)
    }

    /// The address with the value `raw`, for a `raw` that fits.
    pub closed spec fn spec_from_raw(raw: int) -> VirtualAddress {
        VirtualAddress(raw as usize)
    }

    pub proof fn lemma_from_raw(raw: int)
        requires
            0 <= raw <= usize::MAX,
        ensures
            Self::spec_from_raw(raw)@ == raw,
    {
    }

    /// What `new` answers for `raw`.
    pub open spec fn spec_new(raw: usize) -> Result<usize, InvalidAddress> {
        if spec_is_canonical(raw as u64) {
            Ok(raw)
        } else if spec_upper_bits_clear(raw as u64) {
            Ok(spec_sign_extend(raw as u64) as usize)
        } else {
            Err(InvalidAddress(raw))
        }
    }

    /// The physical address that is mapped at this virtual address.
    pub open spec fn spec_get_physical_address(self) -> int {
        self@ - PHYSICAL_MEMORY_OFFSET
    }

    /// The four table indices of the address, from the top level down.
    pub open spec fn spec_page_table_indices(self) -> (usize, usize, usize, usize) {
        (
            (self@ >> 39) & 0x1ff,
            (self@ >> 30) & 0x1ff,
            (self@ >> 21) & 0x1ff,
            (self@ >> 12) & 0x1ff,
        )
    }

    /// Accepts `raw` when its bits 48 to 63 repeat bit 47, and also when they
    /// are clear: bit 47 is then copied into them. Refuses every other value.
    pub fn new(raw: usize) -> (result: Result<VirtualAddress, InvalidAddress>)
        ensures
            match (result, Self::spec_new(raw)) {
                (Ok(address), Ok(value)) => address@ == value && address.wf(),
                (Err(error), Err(expected)) => error == expected,
                _ => false,
            },
            spec_is_canonical(raw as u64) ==> result is Ok && result->Ok_0@ == raw,
            !spec_upper_bits_clear(raw as u64) && !spec_is_canonical(raw as u64) ==> result is Err,
    {
        let wide: u64 = raw as u64;
        let top: u64 = wide >> 47;
        if top == 0 || top == 0x1ffff {
            Ok(VirtualAddress(raw))
        } else if top == 1 {
            proof {
                lemma_sign_extend(wide);
            }
            Ok(Self::new_truncate(raw))
        } else {
            proof {
                lemma_sign_extend(wide);
            }
            Err(InvalidAddress(raw))
        }
    }

    /// Copies bit 47 of `raw` into bits 48 to 63, whatever they held.
    pub fn new_truncate(raw: usize) -> (result: VirtualAddress)
        ensures
            result@ == spec_sign_extend(raw as u64),
            result.wf(),
    {
        let wide: u64 = raw as u64;
        proof {
            lemma_sign_extend(wide);
        }
        let extended: u64 = if wide & 0x8000_0000_0000 != 0 {
            wide | 0xffff_0000_0000_0000
        } else {
            wide & 0x0000_ffff_ffff_ffff
        };
        assert(extended <= usize::MAX) by {
            if usize::MAX < u64::MAX {
                assert(wide <= 0xffff_ffff);
            }
        }
        VirtualAddress(extended as usize)
    }

    /// Wraps a value that is known to be canonical.
    pub fn from_canonical(raw: usize) -> (result: VirtualAddress)
        requires
            spec_is_canonical(raw as u64),
        ensures
            result@ == raw,
            result.wf(),
            result == Self::spec_from_raw(raw as int),
    {
        VirtualAddress(raw)
    }

    pub fn zero() -> (result: VirtualAddress)
        ensures
            result@ == 0,
            result.wf(),
    {
        assert(0u64 >> 47 == 0) by (bit_vector);
        VirtualAddress(0)
    }

    pub fn get_physical_address(&self) -> (result: PhysicalAddress)
        requires
            self@ >= PHYSICAL_MEMORY_OFFSET,
        ensures
            result@ == self.spec_get_physical_address(),
    {
        PhysicalAddress::new(self.0 - PHYSICAL_MEMORY_OFFSET)
    }

    pub fn value(&self) -> (result: usize)
        ensures
            result == self@,
    {
        self.0
    }

    /// Splits the address into its four 9-bit table indices, top level first:
    /// bits 39 to 47, 30 to 38, 21 to 29 and 12 to 20.
    pub fn get_page_table_indices(&self) -> (result: (usize, usize, usize, usize))
        ensures
            result == self.spec_page_table_indices(),
            result.0 < 512 && result.1 < 512 && result.2 < 512 && result.3 < 512,
    {
        let a: usize = self.0;
        assert(((a >> 39) & 0x1ff) < 512 && ((a >> 30) & 0x1ff) < 512 && ((a >> 21) & 0x1ff) < 512
            && ((a >> 12) & 0x1ff) < 512 && (((a >> 12) >> 9) & 0x1ff) == ((a >> 21) & 0x1ff) && ((((a
            >> 12) >> 9) >> 9) & 0x1ff) == ((a >> 30) & 0x1ff) && (((((a >> 12) >> 9) >> 9) >> 9)
            & 0x1ff) == ((a >> 39) & 0x1ff)) by (bit_vector);
        let mut current: usize = self.0 >> 12;
        let level1: usize = current & 0x1ff;
        current = current >> 9;
        let level2: usize = current & 0x1ff;
        current = current >> 9;
        let level3: usize = current & 0x1ff;
        current = current >> 9;
        let top: usize = current & 0x1ff;
        (top, level3, level2, level1)
    }

    /// The address `rhs` bytes further on.
    pub fn offset(self, rhs: usize) -> (result: VirtualAddress)
        requires
            self@ + rhs <= usize::MAX,
            spec_is_canonical((self@ + rhs) as u64),
        ensures
            result@ == self@ + rhs,
            result.wf(),
    {
        VirtualAddress(self.0 + rhs)
    }
}

impl core::ops::Add<usize> for VirtualAddress {
    type Output = VirtualAddress;

    /// The address `rhs` bytes further on, which must be canonical too.
    fn add(self, rhs: usize) -> (result: VirtualAddress) {
        VirtualAddress(self.0 + rhs)
    }
}

impl vstd::std_specs::ops::AddSpecImpl<usize> for VirtualAddress {
    open spec fn obeys_add_spec() -> bool {
        true
    }

    open spec fn add_req(self, rhs: usize) -> bool {
        self@ + rhs <= usize::MAX && spec_is_canonical((self@ + rhs) as u64)
    }

    open spec fn add_spec(self, rhs: usize) -> VirtualAddress {
        VirtualAddress::spec_from_raw(self@ + rhs)
    }
}

/// A raw value whose bits 48 to 63 repeat bit 47 is accepted as it is, and one
/// whose bits 48 to 63 are neither that nor all clear is refused.
pub proof fn lemma_address_canonicalization(raw: usize)
    ensures
        spec_is_canonical(raw as u64) ==> VirtualAddress::spec_new(raw) == Ok::<
            usize,
            InvalidAddress,
        >(raw),
        !spec_is_canonical(raw as u64) && !spec_upper_bits_clear(raw as u64)
            ==> VirtualAddress::spec_new(raw) is Err,
        VirtualAddress::spec_new(raw) is Ok ==> spec_is_canonical(
            VirtualAddress::spec_new(raw)->Ok_0 as u64,
        ),
{
    lemma_sign_extend(raw as u64);
    if !spec_is_canonical(raw as u64) && spec_upper_bits_clear(raw as u64) {
        let wide = raw as u64;
        assert(wide >> 48 == 0 ==> (wide | 0xffff_0000_0000_0000) >= 0x1_0000_0000 && wide
            & 0x0000_ffff_ffff_ffff == wide) by (bit_vector);
    }
}

} // verus!
