//! The four levels of page tables and the walk that maps a page.
use crate::allocator::frame_allocator::{AllocatorState, FrameAllocator, SimpleFrameAllocator};
use crate::paging::frame_arena::{spec_zero_table, FrameArena, ENTRY_COUNT};
use crate::paging::page_table_entry::{
    lemma_with_address,
    lemma_with_flag,
    spec_entry_address,
    spec_entry_flag,
    spec_fits_entry,
    spec_with_address,
    spec_with_flag,
    ADDRESS_MASK,
    PRESENT,
    WRITABLE,
};
use crate::physical_address::PhysicalAddress;
use crate::virtual_address::{lemma_lower_half, VirtualAddress};
use core::marker::PhantomData;
use vstd::prelude::*;

verus! {

/// A level of the page-table hierarchy.
pub trait TableLevel {

}

/// The top level, whose table the processor is pointed at.
pub enum Level4 {
    /// Only the type is used, as a mark on a table.
    Mark,
}

pub enum Level3 {
    /// Only the type is used, as a mark on a table.
    Mark,
}

pub enum Level2 {
    /// Only the type is used, as a mark on a table.
    Mark,
}

/// The lowest level, whose entries point to the mapped frames.
pub enum Level1 {
    /// Only the type is used, as a mark on a table.
    Mark,
}

impl TableLevel for Level4 {

}

impl TableLevel for Level3 {

}

impl TableLevel for Level2 {

}

impl TableLevel for Level1 {

}

/// A level whose entries point to tables of the next level.
pub trait HierarchicalLevel: TableLevel {
    type NextLevel: TableLevel;
}

impl HierarchicalLevel for Level4 {
    type NextLevel = Level3;
}

impl HierarchicalLevel for Level3 {
    type NextLevel = Level2;
}

impl HierarchicalLevel for Level2 {
    type NextLevel = Level1;
}

/// Why a page could not be mapped.
#[derive(Clone, Copy, Debug, PartialEq, Eq, Structural)]
pub enum MapError {
    /// A table was needed and the allocator had no frame left.
    OutOfFrames,
    /// An entry points to a table that is not in the arena.
    MissingTable,
    /// The allocator gave a frame whose address does not fit an entry.
    FrameOutOfReach,
}

/// Where an entry lies: the frame of its table and its index in it.
#[derive(Clone, Copy, Debug, PartialEq, Eq, Structural)]
pub struct EntryLocation {
    pub table: PhysicalAddress,
    pub index: usize,
}

/// What a walk reads and changes: the tables of the arena, by the address of
/// their frame, and the state of the allocator.
pub struct WalkState {
    pub memory: Map<usize, Seq<u64>>,
    pub allocator: AllocatorState,
}

/// The entry `previous` after it has been made to point to a new table at
/// `address`: present and writable.
pub open spec fn spec_table_entry(previous: u64, address: u64) -> u64 {
    spec_with_flag(
        spec_with_flag(spec_with_address(previous, address), PRESENT, true),
        WRITABLE,
        true,
    )
}

/// Takes the next frame from the allocator and makes it a table in which no
/// entry is set.
pub open spec fn spec_allocate_table(state: WalkState) -> (WalkState, Result<usize, MapError>) {
    match state.allocator.next_frame() {
        None => (
            WalkState { allocator: state.allocator.after_allocation(), ..state },
            Err(MapError::OutOfFrames),
        ),
        Some(frame) => (
            WalkState {
                memory: state.memory.insert(frame as usize, spec_zero_table()),
                allocator: state.allocator.after_allocation(),
            },
            Ok(frame as usize),
        ),
    }
}

/// One step of the walk: the table that entry `index` of the table at `table`
/// points to. An entry that is present is followed and nothing changes. For
/// one that is not, a table is allocated, and the entry is made to point to it.
pub open spec fn spec_get_table_at(state: WalkState, table: usize, index: int) -> (
    WalkState,
    Result<usize, MapError>,
) {
    if !state.memory.dom().contains(table) {
        (state, Err(MapError::MissingTable))
    } else if spec_entry_flag(state.memory[table][index], PRESENT) {
        (state, Ok(spec_entry_address(state.memory[table][index]) as usize))
    } else {
        let (allocated, outcome) = spec_allocate_table(state);
        match outcome {
            Err(error) => (allocated, Err(error)),
            Ok(frame) => if !spec_fits_entry(frame as u64) {
                (allocated, Err(MapError::FrameOutOfReach))
            } else {
                (
                    WalkState {
                        memory: allocated.memory.insert(
                            table,
                            allocated.memory[table].update(
                                index,
                                spec_table_entry(allocated.memory[table][index], frame as u64),
                            ),
                        ),
                        ..allocated
                    },
                    Ok(frame),
                )
            },
        }
    }
}

/// The tables that the walk to a page goes through below the top one.
pub struct WalkPath {
    pub level3: usize,
    pub level2: usize,
    pub level1: usize,
}

/// The walk from the top table at `root` down to the level 1 table of the
/// page with the indices `indices`, top level first.
pub open spec fn spec_walk(state: WalkState, root: usize, indices: (usize, usize, usize, usize)) -> (
    WalkState,
    Result<WalkPath, MapError>,
) {
    let (first, level3) = spec_get_table_at(state, root, indices.0 as int);
    match level3 {
        Err(error) => (first, Err(error)),
        Ok(level3) => {
            let (second, level2) = spec_get_table_at(first, level3, indices.1 as int);
            match level2 {
                Err(error) => (second, Err(error)),
                Ok(level2) => {
                    let (third, level1) = spec_get_table_at(second, level2, indices.2 as int);
                    match level1 {
                        Err(error) => (third, Err(error)),
                        Ok(level1) => (third, Ok(WalkPath { level3, level2, level1 })),
                    }
                },
            }
        },
    }
}

/// Mapping the page with the indices `indices` to the frame at `frame`: the
/// walk, and then the address of the frame written into the level 1 entry of
/// the page, whose flags stay.
pub open spec fn spec_map(
    state: WalkState,
    root: usize,
    frame: usize,
    indices: (usize, usize, usize, usize),
) -> (WalkState, Result<WalkPath, MapError>) {
    let (walked, path) = spec_walk(state, root, indices);
    match path {
        Err(error) => (walked, Err(error)),
        Ok(path) => if !walked.memory.dom().contains(path.level1) {
            (walked, Err(MapError::MissingTable))
        } else {
            (
                WalkState {
                    memory: walked.memory.insert(
                        path.level1,
                        walked.memory[path.level1].update(
                            indices.3 as int,
                            spec_with_address(
                                walked.memory[path.level1][indices.3 as int],
                                frame as u64,
                            ),
                        ),
                    ),
                    ..walked
                },
                Ok(path),
            )
        },
    }
}

/// Mapping the page at `address` to the frame at `address`: as `spec_map`,
/// and the entry of the page made writable and present.
pub open spec fn spec_identity_map(state: WalkState, root: usize, address: usize) -> (
    WalkState,
    Result<WalkPath, MapError>,
) {
    let indices = VirtualAddress::spec_from_raw(address as int).spec_page_table_indices();
    let (mapped, path) = spec_map(state, root, address, indices);
    match path {
        Err(error) => (mapped, Err(error)),
        Ok(path) => (
            WalkState {
                memory: mapped.memory.insert(
                    path.level1,
                    mapped.memory[path.level1].update(
                        indices.3 as int,
                        spec_with_flag(
                            spec_with_flag(
                                mapped.memory[path.level1][indices.3 as int],
                                WRITABLE,
                                true,
                            ),
                            PRESENT,
                            true,
                        ),
                    ),
                ),
                ..mapped
            },
            Ok(path),
        ),
    }
}

/// The table of level `L` in the frame at a physical address. The entries of
/// the table lie in the arena.
pub struct PageTable<L: TableLevel> {
    address: PhysicalAddress,
    level: PhantomData<L>,
}

impl<L: TableLevel> View for PageTable<L> {
    type V = usize;

    /// The address of the frame of the table.
    closed spec fn view(&self) -> usize {
        self.address@
    }
}

impl<L: TableLevel> PageTable<L> {
    /// The table in the frame at `address`.
    pub fn at(address: PhysicalAddress) -> (result: PageTable<L>)
        ensures
            result@ == address@,
    {
        PageTable { address, level: PhantomData }
    }

    fn allocate_internal(arena: &mut FrameArena, allocator: &mut SimpleFrameAllocator) -> (result:
        Result<PageTable<L>, MapError>)
        requires
            old(arena).wf(),
            old(allocator).wf(),
        ensures
            final(arena).wf(),
            final(allocator).wf(),
            ({
                let before = WalkState { memory: old(arena)@, allocator: old(allocator)@ };
                let after = WalkState { memory: final(arena)@, allocator: final(allocator)@ };
                &&& after == spec_allocate_table(before).0
                &&& match result {
                    Ok(table) => spec_allocate_table(before).1 == Ok::<usize, MapError>(table@),
                    Err(error) => spec_allocate_table(before).1 == Err::<usize, MapError>(error),
                }
            }),
    {
        match allocator.allocate_frame() {
            None => Err(MapError::OutOfFrames),
            Some(frame) => {
                arena.zero_frame(&frame);
                Ok(PageTable { address: frame.start(), level: PhantomData })
            },
        }
    }

    pub fn get_address(&self) -> (result: PhysicalAddress)
        ensures
            result@ == self@,
    {
        self.address
    }
}

impl<L: HierarchicalLevel> PageTable<L> {
    /// The table of the next level that entry `index` points to. When the
    /// entry is not present, a frame is taken from the allocator, made an empty
    /// table, and the entry is made to point to it, present and writable; an
    /// entry that is present is followed as it is, and nothing is allocated.
    pub fn get_table_at(
        &self,
        index: usize,
        arena: &mut FrameArena,
        allocator: &mut SimpleFrameAllocator,
    ) -> (result: Result<PageTable<L::NextLevel>, MapError>)
        requires
            index < ENTRY_COUNT,
            old(arena).wf(),
            old(allocator).wf(),
        ensures
            final(arena).wf(),
            final(allocator).wf(),
            ({
                let before = WalkState { memory: old(arena)@, allocator: old(allocator)@ };
                let after = WalkState { memory: final(arena)@, allocator: final(allocator)@ };
                let expected = spec_get_table_at(before, self@, index as int);
                &&& after == expected.0
                &&& match result {
                    Ok(table) => expected.1 == Ok::<usize, MapError>(table@),
                    Err(error) => expected.1 == Err::<usize, MapError>(error),
                }
            }),
    {
        let entry = match arena.read(&self.address, index) {
            None => {
                return Err(MapError::MissingTable);
            },
            Some(entry) => entry,
        };
        if entry.is_present() {
            return Ok(PageTable { address: entry.get_address(), level: PhantomData });
        }
        let new_table = match PageTable::<L::NextLevel>::allocate_internal(arena, allocator) {
            Err(error) => {
                return Err(error);
            },
            Ok(table) => table,
        };
        let address = new_table.get_address();
        if address.value() as u64 & !ADDRESS_MASK != 0 {
            return Err(MapError::FrameOutOfReach);
        }
        let mut entry = match arena.read(&self.address, index) {
            None => {
                return Err(MapError::MissingTable);
            },
            Some(entry) => entry,
        };
        entry.set_address(&address);
        entry.set_present(true);
        entry.set_writable(true);
        arena.write(&self.address, index, entry);
        Ok(new_table)
    }
}

impl PageTable<Level4> {
    /// A new top-level table in a frame from the allocator, with no entry set.
    pub fn allocate(arena: &mut FrameArena, allocator: &mut SimpleFrameAllocator) -> (result: Result<
        PageTable<Level4>,
        MapError,
    >)
        requires
            old(arena).wf(),
            old(allocator).wf(),
        ensures
            final(arena).wf(),
            final(allocator).wf(),
            ({
                let before = WalkState { memory: old(arena)@, allocator: old(allocator)@ };
                let after = WalkState { memory: final(arena)@, allocator: final(allocator)@ };
                &&& after == spec_allocate_table(before).0
                &&& match result {
                    Ok(table) => spec_allocate_table(before).1 == Ok::<usize, MapError>(table@),
                    Err(error) => spec_allocate_table(before).1 == Err::<usize, MapError>(error),
                }
            }),
    {
        PageTable::<Level4>::allocate_internal(arena, allocator)
    }

    /// Maps the page at `address` to the frame at `frame`: walks from this
    /// table down to the level 1 table of the page, making the tables that are
    /// missing on the way, and writes the address of the frame into the entry
    /// of the page. Gives the place of that entry, whose flags are left to the
    /// caller. Both addresses must be the start of a page, and `frame` must fit
    /// an entry.
    pub fn map(
        &self,
        frame: &PhysicalAddress,
        address: &VirtualAddress,
        arena: &mut FrameArena,
        allocator: &mut SimpleFrameAllocator,
    ) -> (result: Result<EntryLocation, MapError>)
        requires
            spec_fits_entry(frame@ as u64),
            address@ % 4096 == 0,
            old(arena).wf(),
            old(allocator).wf(),
        ensures
            final(arena).wf(),
            final(allocator).wf(),
            ({
                let before = WalkState { memory: old(arena)@, allocator: old(allocator)@ };
                let after = WalkState { memory: final(arena)@, allocator: final(allocator)@ };
                let expected = spec_map(before, self@, frame@, address.spec_page_table_indices());
                &&& after == expected.0
                &&& match result {
                    Ok(location) => expected.1 is Ok && location.table@ == expected.1->Ok_0.level1
                        && location.index == address.spec_page_table_indices().3 && location.index
                        < ENTRY_COUNT,
                    Err(error) => expected.1 == Err::<WalkPath, MapError>(error),
                }
            }),
    {
        let (level4_index, level3_index, level2_index, level1_index) = address.get_page_table_indices();
        let level3 = match self.get_table_at(level4_index, arena, allocator) {
            Err(error) => {
                return Err(error);
            },
            Ok(table) => table,
        };
        let level2 = match level3.get_table_at(level3_index, arena, allocator) {
            Err(error) => {
                return Err(error);
            },
            Ok(table) => table,
        };
        let level1 = match level2.get_table_at(level2_index, arena, allocator) {
            Err(error) => {
                return Err(error);
            },
            Ok(table) => table,
        };
        let mut entry = match arena.read(&level1.address, level1_index) {
            None => {
                return Err(MapError::MissingTable);
            },
            Some(entry) => entry,
        };
        entry.set_address(frame);
        arena.write(&level1.address, level1_index, entry);
        Ok(EntryLocation { table: level1.address, index: level1_index })
    }

    /// Maps the page at `address` to the frame at the same address, writable
    /// and present, so that what lies there can be reached as before under
    /// this table. The address must be the start of a page in the lower half
    /// of the address space, where a virtual address of the same value exists.
    pub fn identity_map(
        &self,
        address: &PhysicalAddress,
        arena: &mut FrameArena,
        allocator: &mut SimpleFrameAllocator,
    ) -> (result: Result<(), MapError>)
        requires
            address@ % 4096 == 0,
            address@ < 0x8000_0000_0000,
            old(arena).wf(),
            old(allocator).wf(),
        ensures
            final(arena).wf(),
            final(allocator).wf(),
            ({
                let before = WalkState { memory: old(arena)@, allocator: old(allocator)@ };
                let after = WalkState { memory: final(arena)@, allocator: final(allocator)@ };
                let expected = spec_identity_map(before, self@, address@);
                &&& after == expected.0
                &&& match result {
                    Ok(_) => expected.1 is Ok,
                    Err(error) => expected.1 == Err::<WalkPath, MapError>(error),
                }
            }),
    {
        let raw: usize = address.value();
        proof {
            lemma_lower_half(raw as u64);
        }
        let virtual_address = VirtualAddress::from_canonical(raw);
        let location = match self.map(address, &virtual_address, arena, allocator) {
            Err(error) => {
                return Err(error);
            },
            Ok(location) => location,
        };
        let mut entry = match arena.read(&location.table, location.index) {
            None => {
                return Err(MapError::MissingTable);
            },
            Some(entry) => entry,
        };
        entry.set_writable(true);
        entry.set_present(true);
        arena.write(&location.table, location.index, entry);
        Ok(())
    }
}

/// Every table has its 512 entries.
pub open spec fn spec_memory_wf(memory: Map<usize, Seq<u64>>) -> bool {
    forall|table: usize| #[trigger]
        memory.dom().contains(table) ==> memory[table].len() == ENTRY_COUNT
}

/// Whether the top table and the three tables below it on the way to a page
/// are four different frames, as they are wherever no table is used on two
/// levels at once.
pub open spec fn spec_path_is_tree(root: usize, path: WalkPath) -> bool {
    &&& root != path.level3
    &&& root != path.level2
    &&& root != path.level1
    &&& path.level3 != path.level2
    &&& path.level3 != path.level1
    &&& path.level2 != path.level1
}

/// After a step of the walk that gave a table, the entry of the step is
/// present and points to that table, so that the same step from there changes
/// nothing and allocates nothing. The step leaves every table but the one it
/// read and the one it gave as it was, and if the entry was present before, it
/// changes nothing at all.
pub proof fn lemma_step(state: WalkState, table: usize, index: int)
    requires
        spec_memory_wf(state.memory),
        0 <= index < ENTRY_COUNT,
        spec_get_table_at(state, table, index).1 is Ok,
    ensures
        ({
            let (after, next) = spec_get_table_at(state, table, index);
            let next = next->Ok_0;
            &&& spec_memory_wf(after.memory)
            &&& after.memory.dom().contains(table)
            &&& spec_entry_flag(after.memory[table][index], PRESENT)
            &&& spec_entry_address(after.memory[table][index]) as usize == next
            &&& spec_get_table_at(after, table, index) == (after, Ok::<usize, MapError>(next))
            &&& forall|other: usize| #[trigger]
                state.memory.dom().contains(other) ==> after.memory.dom().contains(other)
            &&& forall|other: usize|
                other != table && other != next && #[trigger] after.memory.dom().contains(other)
                    ==> state.memory.dom().contains(other) && after.memory[other]
                    == state.memory[other]
            &&& spec_entry_flag(state.memory[table][index], PRESENT) ==> after == state
        }),
{
    if !spec_entry_flag(state.memory[table][index], PRESENT) {
        let (allocated, outcome) = spec_allocate_table(state);
        let frame = outcome->Ok_0;
        let previous = allocated.memory[table][index];
        let pointed = spec_with_address(previous, frame as u64);
        let present = spec_with_flag(pointed, PRESENT, true);
        lemma_with_address(previous, frame as u64, 0);
        lemma_with_flag(pointed, PRESENT, true, 0);
        lemma_with_flag(present, WRITABLE, true, PRESENT);
    }
}

/// Mapping a page a second time to the same frame changes nothing: the tables
/// are as the first mapping left them, and no frame is taken from the
/// allocator, since every table on the way is there already. This is stated
/// for a walk whose four tables are four different frames.
pub proof fn lemma_map_twice(
    state: WalkState,
    root: usize,
    frame: usize,
    indices: (usize, usize, usize, usize),
)
    requires
        spec_memory_wf(state.memory),
        indices.0 < ENTRY_COUNT,
        indices.1 < ENTRY_COUNT,
        indices.2 < ENTRY_COUNT,
        indices.3 < ENTRY_COUNT,
        spec_fits_entry(frame as u64),
        spec_map(state, root, frame, indices).1 is Ok,
        spec_path_is_tree(root, spec_map(state, root, frame, indices).1->Ok_0),
    ensures
        spec_map(spec_map(state, root, frame, indices).0, root, frame, indices) == spec_map(
            state,
            root,
            frame,
            indices,
        ),
        spec_map(spec_map(state, root, frame, indices).0, root, frame, indices).0.allocator
            == spec_map(state, root, frame, indices).0.allocator,
{
    let (first, level3) = spec_get_table_at(state, root, indices.0 as int);
    let level3 = level3->Ok_0;
    lemma_step(state, root, indices.0 as int);
    let (second, level2) = spec_get_table_at(first, level3, indices.1 as int);
    let level2 = level2->Ok_0;
    lemma_step(first, level3, indices.1 as int);
    let (third, level1) = spec_get_table_at(second, level2, indices.2 as int);
    let level1 = level1->Ok_0;
    lemma_step(second, level2, indices.2 as int);
    let (mapped, path) = spec_map(state, root, frame, indices);
    let entry = third.memory[level1][indices.3 as int];
    lemma_with_address(entry, frame as u64, 0);

    assert(mapped.memory[root] == first.memory[root]);
    assert(mapped.memory[level3] == second.memory[level3]);
    assert(mapped.memory[level2] == third.memory[level2]);
    assert(spec_get_table_at(mapped, root, indices.0 as int) == (
        mapped,
        Ok::<usize, MapError>(level3),
    ));
    assert(spec_get_table_at(mapped, level3, indices.1 as int) == (
        mapped,
        Ok::<usize, MapError>(level2),
    ));
    assert(spec_get_table_at(mapped, level2, indices.2 as int) == (
        mapped,
        Ok::<usize, MapError>(level1),
    ));
    let again = mapped.memory[level1].update(
        indices.3 as int,
        spec_with_address(mapped.memory[level1][indices.3 as int], frame as u64),
    );
    assert(again =~= mapped.memory[level1]);
    assert(mapped.memory.insert(level1, again) =~= mapped.memory);
}

} // verus!
