//! 64-bit virtual addresses as the processor pushes and expects them.
use crate::virtual_address::{
    lemma_sign_extend,
    spec_is_canonical,
    spec_sign_extend,
    spec_upper_bits_clear,
};
use vstd::prelude::*;

verus! {

/// A passed `u64` was not a valid virtual address: bits 48 to 63 were neither a
/// copy of bit 47 nor all clear. Holds bits 47 to 63 of the refused value, in
/// place.
#[derive(Clone, Copy, Debug, PartialEq, Eq, Structural)]
pub struct VirtAddrNotValid(pub u64);

/// A canonical 64-bit virtual address.
#[derive(Clone, Copy, Debug, PartialEq, Eq, Structural, PartialOrd, Ord)]
pub struct VirtAddr(u64);

impl View for VirtAddr {
    type V = u64;

    closed spec fn view(&self) -> u64 {
        self.0
    }
}

impl VirtAddr {
    /// Every address that this type's constructors give is canonical.
    pub open spec fn wf(&self) -> bool {
        spec_is_canonical(self@)
    }

    /// Whether `try_new` accepts `addr`.
    pub open spec fn spec_accepts(addr: u64) -> bool {
        spec_is_canonical(addr) || spec_upper_bits_clear(addr)
    }

    /// Like `try_new`, for a value that is known to be accepted.
    pub fn new(addr: u64) -> (result: VirtAddr)
        requires
            Self::spec_accepts(addr),
        ensures
            result@ == spec_sign_extend(addr),
            spec_is_canonical(addr) ==> result@ == addr,
            result.wf(),
    {
        proof {
            lemma_sign_extend(addr);
        }
        Self::new_truncate(addr)
    }

    /// Accepts `addr` unchanged when it is canonical, sign-extends it when only
    /// bit 47 is set above bit 46, and refuses every other value.
    pub fn try_new(addr: u64) -> (result: Result<VirtAddr, VirtAddrNotValid>)
        ensures
            Self::spec_accepts(addr) <==> result is Ok,
            result is Ok ==> result->Ok_0@ == spec_sign_extend(addr) && result->Ok_0.wf(),
            spec_is_canonical(addr) ==> result is Ok && result->Ok_0@ == addr,
            result is Err ==> result->Err_0 == VirtAddrNotValid(addr & 0xffff_8000_0000_0000),
    {
        proof {
            lemma_sign_extend(addr);
        }
        let top: u64 = addr >> 47;
        if top == 0 || top == 0x1ffff {
            Ok(VirtAddr(addr))
        } else if top == 1 {
            Ok(Self::new_truncate(addr))
        } else {
            Err(VirtAddrNotValid(addr & 0xffff_8000_0000_0000))
        }
    }

    /// Copies bit 47 of `addr` into bits 48 to 63, whatever they held.
    pub fn new_truncate(addr: u64) -> (result: VirtAddr)
        ensures
            result@ == spec_sign_extend(addr),
            result.wf(),
    {
        proof {
            lemma_sign_extend(addr);
        }
        if addr & 0x8000_0000_0000 != 0 {
            VirtAddr(addr | 0xffff_0000_0000_0000)
        } else {
            VirtAddr(addr & 0x0000_ffff_ffff_ffff)
        }
    }

    pub fn zero() -> (result: VirtAddr)
        ensures
            result@ == 0,
            result.wf(),
    {
        proof {
            lemma_sign_extend(0);
        }
        VirtAddr(0)
    }

    pub fn get(&self) -> (result: u64)
        ensures
            result == self@,
    {
        self.0
    }
}

} // verus!
