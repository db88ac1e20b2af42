//! The frames that hold page tables.
use crate::allocator::frame_allocator::Frame;
use crate::paging::page_table_entry::PageTableEntry;
use crate::physical_address::PhysicalAddress;
use vstd::prelude::*;

verus! {

/// Number of entries in a page table.
pub const ENTRY_COUNT: usize = 512;

/// A table in which no entry is set.
pub open spec fn spec_zero_table() -> Seq<u64> {
    Seq::new(ENTRY_COUNT as nat, |index: int| 0u64)
}

/// The frame at `address`, seen as a table of 512 entries.
struct TableFrame {
    address: PhysicalAddress,
    entries: [PageTableEntry; 512],
}

impl TableFrame {
    spec fn table(&self) -> Seq<u64> {
        Seq::new(ENTRY_COUNT as nat, |index: int| self.entries[index]@)
    }
}

/// The frames of physical memory that are in use as page tables, each with its
/// 512 entries. Page tables name each other by physical address; the arena is
/// the one place where such an address is turned into a table.
pub struct FrameArena {
    frames: Vec<TableFrame>,
}

impl View for FrameArena {
    type V = Map<usize, Seq<u64>>;

    /// The entries of each frame of the arena, by the address of the frame.
    closed spec fn view(&self) -> Map<usize, Seq<u64>> {
        Map::new(
            |address: usize| self.holds(address),
            |address: usize| self.frames[self.slot_of(address)].table(),
        )
    }
}

impl FrameArena {
    spec fn holds(&self, address: usize) -> bool {
        exists|slot: int| 0 <= slot < self.frames.len() && self.frames[slot].address@ == address
    }

    spec fn slot_of(&self, address: usize) -> int {
        choose|slot: int| 0 <= slot < self.frames.len() && self.frames[slot].address@ == address
    }

    /// No frame is in the arena twice.
    pub closed spec fn wf(&self) -> bool {
        forall|first: int, second: int|
            0 <= first < self.frames.len() && 0 <= second < self.frames.len()
                && self.frames[first].address@ == self.frames[second].address@ ==> first == second
    }

    /// Every table of the arena has 512 entries.
    pub proof fn lemma_table_len(&self, address: usize)
        requires
            self@.dom().contains(address),
        ensures
            self@[address].len() == ENTRY_COUNT,
    {
    }

    proof fn lemma_slot(&self, slot: int)
        requires
            self.wf(),
            0 <= slot < self.frames.len(),
        ensures
            self.holds(self.frames[slot].address@),
            self.slot_of(self.frames[slot].address@) == slot,
            self@.dom().contains(self.frames[slot].address@),
            self@[self.frames[slot].address@] == self.frames[slot].table(),
    {
    }

    /// An arena without frames.
    pub fn new() -> (result: FrameArena)
        ensures
            result.wf(),
            result@ == Map::<usize, Seq<u64>>::empty(),
    {
        let result = FrameArena { frames: Vec::new() };
        assert(result@ =~= Map::<usize, Seq<u64>>::empty());
        result
    }

    /// The place of the frame at `address` in the arena.
    fn find(&self, address: usize) -> (result: Option<usize>)
        requires
            self.wf(),
        ensures
            match result {
                Some(slot) => slot < self.frames.len() && self.frames[slot as int].address@
                    == address && self@.dom().contains(address),
                None => !self@.dom().contains(address),
            },
    {
        let mut slot: usize = 0;
        while slot < self.frames.len()
            invariant
                slot <= self.frames.len(),
                forall|earlier: int| 0 <= earlier < slot ==> self.frames[earlier].address@ != address,
            decreases self.frames.len() - slot,
        {
            if self.frames[slot].address.value() == address {
                return Some(slot);
            }
            slot = slot + 1;
        }
        None
    }

    /// Whether the frame at `address` is in the arena.
    pub fn contains(&self, address: &PhysicalAddress) -> (result: bool)
        requires
            self.wf(),
        ensures
            result == self@.dom().contains(address@),
    {
        self.find(address.value()).is_some()
    }

    /// Takes `frame` into the arena as a table in which no entry is set. A
    /// frame that is in the arena already loses its entries.
    pub fn zero_frame(&mut self, frame: &Frame)
        requires
            old(self).wf(),
        ensures
            final(self).wf(),
            final(self)@ == old(self)@.insert(frame.spec_start() as usize, spec_zero_table()),
    {
        let address = frame.start();
        let blank = TableFrame { address, entries: [PageTableEntry::empty();512] };
        assert(blank.table() =~= spec_zero_table());
        match self.find(address.value()) {
            Some(slot) => {
                self.frames[slot] = blank;
                assert forall|other: usize| #[trigger] self.holds(other) == old(self).holds(
                    other,
                ) by {
                    if old(self).holds(other) {
                        let at = old(self).slot_of(other);
                        assert(self.frames[at].address@ == other);
                    }
                    if self.holds(other) {
                        let at = self.slot_of(other);
                        assert(old(self).frames[at].address@ == other);
                    }
                }
                assert forall|other: usize| self.holds(other) implies #[trigger] self@[other]
                    == old(self)@.insert(address@, spec_zero_table())[other] by {
                    let at = self.slot_of(other);
                    self.lemma_slot(at);
                    old(self).lemma_slot(at);
                }
            },
            None => {
                self.frames.push(blank);
                let ghost last = old(self).frames.len() as int;
                assert forall|other: usize| #[trigger] self.holds(other) == (old(self).holds(other)
                    || other == address@) by {
                    if old(self).holds(other) {
                        let at = old(self).slot_of(other);
                        assert(self.frames[at].address@ == other);
                    }
                    if other == address@ {
                        assert(self.frames[last].address@ == other);
                    }
                    if self.holds(other) {
                        let at = self.slot_of(other);
                        if at < last {
                            assert(old(self).frames[at].address@ == other);
                        }
                    }
                }
                assert forall|other: usize| self.holds(other) implies #[trigger] self@[other]
                    == old(self)@.insert(address@, spec_zero_table())[other] by {
                    let at = self.slot_of(other);
                    self.lemma_slot(at);
                    if at < last {
                        old(self).lemma_slot(at);
                    }
                }
            },
        }
        assert(self@ =~= old(self)@.insert(address@, spec_zero_table()));
    }

    /// Entry `index` of the table at `table`; `None` if no such table is in the
    /// arena.
    pub fn read(&self, table: &PhysicalAddress, index: usize) -> (result: Option<PageTableEntry>)
        requires
            self.wf(),
            index < ENTRY_COUNT,
        ensures
            match result {
                Some(entry) => self@.dom().contains(table@) && entry@ == self@[table@][index as int],
                None => !self@.dom().contains(table@),
            },
    {
        match self.find(table.value()) {
            Some(slot) => {
                proof {
                    self.lemma_slot(slot as int);
                }
                Some(self.frames[slot].entries[index])
            },
            None => None,
        }
    }

    /// Puts `entry` at `index` of the table at `table`, and says whether there
    /// is such a table in the arena; if not, nothing changes.
    pub fn write(&mut self, table: &PhysicalAddress, index: usize, entry: PageTableEntry) -> (result:
        bool)
        requires
            old(self).wf(),
            index < ENTRY_COUNT,
        ensures
            final(self).wf(),
            result == old(self)@.dom().contains(table@),
            result ==> final(self)@ == old(self)@.insert(
                table@,
                old(self)@[table@].update(index as int, entry@),
            ),
            !result ==> final(self)@ == old(self)@,
    {
        match self.find(table.value()) {
            Some(slot) => {
                let mut changed = TableFrame {
                    address: self.frames[slot].address,
                    entries: self.frames[slot].entries,
                };
                changed.entries[index] = entry;
                proof {
                    old(self).lemma_slot(slot as int);
                    assert(changed.table() =~= old(self)@[table@].update(index as int, entry@));
                }
                self.frames[slot] = changed;
                assert forall|other: usize| #[trigger] self.holds(other) == old(self).holds(
                    other,
                ) by {
                    if old(self).holds(other) {
                        let at = old(self).slot_of(other);
                        assert(self.frames[at].address@ == other);
                    }
                    if self.holds(other) {
                        let at = self.slot_of(other);
                        assert(old(self).frames[at].address@ == other);
                    }
                }
                assert forall|other: usize| self.holds(other) implies #[trigger] self@[other]
                    == old(self)@.insert(
                    table@,
                    old(self)@[table@].update(index as int, entry@),
                )[other] by {
                    let at = self.slot_of(other);
                    self.lemma_slot(at);
                    old(self).lemma_slot(at);
                }
                assert(self@ =~= old(self)@.insert(
                    table@,
                    old(self)@[table@].update(index as int, entry@),
                ));
                true
            },
            None => false,
        }
    }

    /// Number of frames in the arena.
    pub fn len(&self) -> (result: usize)
        requires
            self.wf(),
        ensures
            result == self@.dom().len(),
            self@.dom().finite(),
    {
        proof {
            self.lemma_len(self.frames.len() as int);
        }
        self.frames.len()
    }

    /// The address of the frame in place `slot` of the arena, for a walk over
    /// all its frames: the places from 0 up to `len` hold each frame once.
    pub fn address_at(&self, slot: usize) -> (result: PhysicalAddress)
        requires
            self.wf(),
            slot < self@.dom().len(),
        ensures
            self@.dom().contains(result@),
    {
        proof {
            self.lemma_len(self.frames.len() as int);
            self.lemma_slot(slot as int);
        }
        self.frames[slot].address
    }

    spec fn prefix_dom(&self, count: int) -> Set<usize> {
        Set::new(
            |address: usize|
                exists|slot: int| 0 <= slot < count && self.frames[slot].address@ == address,
        )
    }

    proof fn lemma_len(&self, count: int)
        requires
            self.wf(),
            0 <= count <= self.frames.len(),
        ensures
            self.prefix_dom(count).finite(),
            self.prefix_dom(count).len() == count,
            count == self.frames.len() ==> self.prefix_dom(count) == self@.dom(),
        decreases count,
    {
        if count == 0 {
            assert(self.prefix_dom(0) =~= Set::<usize>::empty());
        } else {
            self.lemma_len(count - 1);
            let last = self.frames[count - 1].address@;
            assert(self.prefix_dom(count) =~= self.prefix_dom(count - 1).insert(last));
            assert(!self.prefix_dom(count - 1).contains(last));
        }
        if count == self.frames.len() {
            assert(self.prefix_dom(count) =~= self@.dom());
        }
    }
}

} // verus!
