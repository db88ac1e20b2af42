//! Selectors that name an entry of the descriptor table.
use crate::privilege_level::PrivilegeLevel;
use vstd::prelude::*;

verus! {

/// A segment selector: the index of a descriptor in bits 3 to 15 and the
/// requested privilege level in bits 0 and 1.
#[derive(Clone, Copy, Debug, PartialEq, Eq, Structural)]
pub struct SegmentSelector(u16);

impl View for SegmentSelector {
    type V = u16;

    closed spec fn view(&self) -> u16 {
        self.0
    }
}

impl SegmentSelector {
    /// The selector for descriptor `index` at privilege level `rpl`.
    pub open spec fn spec_new(index: u16, rpl: PrivilegeLevel) -> u16 {
        (index << 3) | rpl.spec_number()
    }

    pub fn new(index: u16, rpl: PrivilegeLevel) -> (result: SegmentSelector)
        ensures
            result@ == Self::spec_new(index, rpl),
            index < 8192 ==> result.spec_index() == index && result.spec_rpl()
                == rpl.spec_number(),
    {
        let level: u16 = rpl.number();
        assert(index < 8192 && level <= 3 ==> ((index << 3) | level) >> 3 == index && ((index << 3)
            | level) & 3 == level) by (bit_vector);
        SegmentSelector(index << 3 | level)
    }

    pub fn from_value(value: u16) -> (result: SegmentSelector)
        ensures
            result@ == value,
    {
        SegmentSelector(value)
    }

    /// The descriptor index that the selector names.
    pub open spec fn spec_index(self) -> u16 {
        self@ >> 3
    }

    /// The privilege level that the selector requests.
    pub open spec fn spec_rpl(self) -> u16 {
        self@ & 3
    }

    pub fn value(&self) -> (result: u16)
        ensures
            result == self@,
    {
        self.0
    }

    pub fn index(&self) -> (result: u16)
        ensures
            result == self.spec_index(),
    {
        self.0 >> 3
    }
}

} // verus!
