//! Frames of physical memory and the allocator that hands them out from the
//! memory map.
use crate::boot::multiboot_memory_map::{
    MemoryAreaType,
    MemoryMapEntry,
    MemoryMapEntryIterator,
    MemoryMapTag,
};
use crate::physical_address::PhysicalAddress;
use core::ops::Range;
use vstd::prelude::*;

verus! {

/// Size of a frame in bytes.
pub const FRAME_SIZE: usize = 4096;

/// One frame of physical memory: `FRAME_SIZE` bytes that begin at a multiple
/// of `FRAME_SIZE`.
#[derive(Clone, Copy, Debug, PartialEq, Eq, Structural)]
pub struct Frame {
    address: PhysicalAddress,
    size: usize,
}

impl Frame {
    /// The address of the first byte of the frame.
    pub closed spec fn spec_start(&self) -> int {
        self.address@ as int
    }

    /// The size of the frame in bytes.
    pub closed spec fn spec_size(&self) -> int {
        self.size as int
    }

    /// The frame begins at a multiple of its size, has the size of a frame, and
    /// ends within the addresses of the machine.
    pub open spec fn wf(&self) -> bool {
        &&& self.spec_size() == FRAME_SIZE
        &&& self.spec_start() % 4096 == 0
        &&& self.spec_start() + FRAME_SIZE <= usize::MAX
    }

    /// Frames that begin at the same address are the same frame.
    pub proof fn lemma_same_start(self, other: Frame)
        requires
            self.wf(),
            other.wf(),
            self.spec_start() == other.spec_start(),
        ensures
            self == other,
    {
        self.address.lemma_view_injective(other.address);
    }

    /// The frame that begins at `address`.
    pub fn new(address: PhysicalAddress) -> (result: Frame)
        requires
            address@ % 4096 == 0,
            address@ + FRAME_SIZE <= usize::MAX,
        ensures
            result.wf(),
            result.spec_start() == address@,
    {
        Frame { address, size: FRAME_SIZE }
    }

    /// The frame that holds `address`.
    pub fn containing_page(address: PhysicalAddress) -> (result: Frame)
        requires
            address@ - address@ % 4096 + FRAME_SIZE <= usize::MAX,
        ensures
            result.wf(),
            result.spec_start() == address@ - address@ % 4096,
            result.spec_start() <= address@ < result.spec_start() + FRAME_SIZE,
    {
        Frame { address: address.round_down(), size: FRAME_SIZE }
    }

    pub fn start(&self) -> (result: PhysicalAddress)
        ensures
            result@ == self.spec_start(),
    {
        self.address
    }

    /// The first address after the frame.
    pub fn end(&self) -> (result: PhysicalAddress)
        requires
            self.wf(),
        ensures
            result@ == self.spec_start() + FRAME_SIZE,
    {
        self.address.offset(self.size)
    }
}

/// Whether the frame that begins at `frame_start` and `range` have an address
/// in common.
pub open spec fn spec_intersects(frame_start: int, range: Range<PhysicalAddress>) -> bool {
    &&& frame_start < range.end@
    &&& range.start@ < frame_start + FRAME_SIZE
    &&& range.start@ < range.end@
}

/// Whether the frame that begins at `frame_start` lies clear of the kernel
/// image and of the boot information.
pub open spec fn spec_frame_free(
    frame_start: int,
    kernel_area: Range<PhysicalAddress>,
    multiboot_area: Range<PhysicalAddress>,
) -> bool {
    !spec_intersects(frame_start, kernel_area) && !spec_intersects(frame_start, multiboot_area)
}

/// Whether the frame that begins at `frame_start` lies within `area`.
pub open spec fn spec_frame_in_area(area: MemoryMapEntry, frame_start: int) -> bool {
    &&& area.address <= frame_start
    &&& frame_start + FRAME_SIZE <= area.spec_end()
    &&& frame_start + FRAME_SIZE <= usize::MAX
    &&& frame_start % 4096 == 0
}

/// Where the search for frames in `area` begins: at the start of the page that
/// holds the first address of the area. An area that begins beyond the
/// addresses of the machine has no frames; the search for it begins at the
/// last address.
pub open spec fn spec_first_position(area: MemoryMapEntry) -> int {
    if area.address > usize::MAX {
        usize::MAX as int
    } else {
        area.address - area.address % 4096
    }
}

/// The first frame of `area` at or after `position`, in steps of a frame, that
/// lies within the area and clear of both ranges.
pub open spec fn spec_scan_area(
    area: MemoryMapEntry,
    position: int,
    kernel_area: Range<PhysicalAddress>,
    multiboot_area: Range<PhysicalAddress>,
) -> Option<int>
    decreases area.spec_end() - position,
{
    if position + FRAME_SIZE > area.spec_end() || position + FRAME_SIZE > usize::MAX {
        None
    } else if position >= area.address && spec_frame_free(position, kernel_area, multiboot_area) {
        Some(position)
    } else {
        spec_scan_area(area, position + FRAME_SIZE, kernel_area, multiboot_area)
    }
}

/// The first available area from `index` on that has a free frame, with that
/// frame: the index of the area and the start of the frame.
pub open spec fn spec_scan_areas(
    areas: Seq<MemoryMapEntry>,
    index: int,
    kernel_area: Range<PhysicalAddress>,
    multiboot_area: Range<PhysicalAddress>,
) -> Option<(int, int)>
    decreases areas.len() - index,
{
    if index < 0 || index >= areas.len() {
        None
    } else if areas[index].spec_typ() == MemoryAreaType::Available && spec_scan_area(
        areas[index],
        spec_first_position(areas[index]),
        kernel_area,
        multiboot_area,
    ) is Some {
        Some(
            (
                index,
                spec_scan_area(
                    areas[index],
                    spec_first_position(areas[index]),
                    kernel_area,
                    multiboot_area,
                )->Some_0,
            ),
        )
    } else {
        spec_scan_areas(areas, index + 1, kernel_area, multiboot_area)
    }
}

/// A frame that the search finds in an area lies within the area, clear of
/// both ranges, and a whole number of frames after the place where the search
/// began; every frame of the area between that place and the one found
/// touches one of the ranges.
pub proof fn lemma_scan_area_found(
    area: MemoryMapEntry,
    position: int,
    kernel_area: Range<PhysicalAddress>,
    multiboot_area: Range<PhysicalAddress>,
)
    requires
        position % 4096 == 0,
        spec_scan_area(area, position, kernel_area, multiboot_area) is Some,
    ensures
        ({
            let found = spec_scan_area(area, position, kernel_area, multiboot_area)->Some_0;
            &&& found >= position
            &&& spec_frame_in_area(area, found)
            &&& spec_frame_free(found, kernel_area, multiboot_area)
            &&& forall|earlier: int|
                position <= earlier < found && earlier % 4096 == 0 && earlier >= area.address
                    ==> !spec_frame_free(earlier, kernel_area, multiboot_area)
        }),
    decreases area.spec_end() - position,
{
    if position + FRAME_SIZE > area.spec_end() || position + FRAME_SIZE > usize::MAX {
    } else if position >= area.address && spec_frame_free(position, kernel_area, multiboot_area) {
    } else {
        lemma_scan_area_found(area, position + FRAME_SIZE, kernel_area, multiboot_area);
        let found = spec_scan_area(area, position, kernel_area, multiboot_area)->Some_0;
        assert forall|earlier: int|
            position <= earlier < found && earlier % 4096 == 0 && earlier >= area.address
                implies !spec_frame_free(earlier, kernel_area, multiboot_area) by {
            if earlier < position + FRAME_SIZE {
                assert(earlier == position);
            }
        }
    }
}

/// When the search finds no frame in an area, every frame of the area from the
/// place where the search began touches one of the ranges.
pub proof fn lemma_scan_area_exhausted(
    area: MemoryMapEntry,
    position: int,
    kernel_area: Range<PhysicalAddress>,
    multiboot_area: Range<PhysicalAddress>,
    frame_start: int,
)
    requires
        position % 4096 == 0,
        spec_scan_area(area, position, kernel_area, multiboot_area) is None,
        frame_start >= position,
        spec_frame_in_area(area, frame_start),
    ensures
        !spec_frame_free(frame_start, kernel_area, multiboot_area),
    decreases area.spec_end() - position,
{
    if position + FRAME_SIZE > area.spec_end() || position + FRAME_SIZE > usize::MAX {
    } else if position >= area.address && spec_frame_free(position, kernel_area, multiboot_area) {
    } else {
        if frame_start >= position + FRAME_SIZE {
            lemma_scan_area_exhausted(
                area,
                position + FRAME_SIZE,
                kernel_area,
                multiboot_area,
                frame_start,
            );
        } else {
            assert(frame_start == position);
        }
    }
}

/// Hands out the free frames of one memory area, from its start upwards.
pub struct FrameIteratorForMemoryArea {
    memory_map_entry: Option<MemoryMapEntry>,
    current_position: PhysicalAddress,
    kernel_area: Range<PhysicalAddress>,
    multiboot_area: Range<PhysicalAddress>,
}

impl FrameIteratorForMemoryArea {
    /// The area whose frames are handed out, if there is one.
    pub closed spec fn spec_area(&self) -> Option<MemoryMapEntry> {
        self.memory_map_entry
    }

    /// The place from which the remaining frames are searched.
    pub closed spec fn spec_position(&self) -> int {
        self.current_position@ as int
    }

    pub closed spec fn spec_kernel_area(&self) -> Range<PhysicalAddress> {
        self.kernel_area
    }

    pub closed spec fn spec_multiboot_area(&self) -> Range<PhysicalAddress> {
        self.multiboot_area
    }

    /// The place of the search is the start of a frame, or so far up that no
    /// frame begins there.
    pub open spec fn wf(&self) -> bool {
        &&& 0 <= self.spec_position() <= usize::MAX
        &&& (self.spec_position() % 4096 == 0 || self.spec_position() + FRAME_SIZE > usize::MAX)
    }

    /// The frame that `next` gives, by its start.
    pub open spec fn spec_next(&self) -> Option<int> {
        match self.spec_area() {
            None => None,
            Some(area) => spec_scan_area(
                area,
                self.spec_position(),
                self.spec_kernel_area(),
                self.spec_multiboot_area(),
            ),
        }
    }

    /// An iterator over the free frames of `memory_map_entry`, or over nothing
    /// for `None`.
    pub fn new(
        memory_map_entry: Option<MemoryMapEntry>,
        kernel_area: Range<PhysicalAddress>,
        multiboot_area: Range<PhysicalAddress>,
    ) -> (result: FrameIteratorForMemoryArea)
        ensures
            result.wf(),
            result.spec_area() == memory_map_entry,
            result.spec_kernel_area() == kernel_area,
            result.spec_multiboot_area() == multiboot_area,
            result.spec_position() == match memory_map_entry {
                Some(area) => spec_first_position(area),
                None => usize::MAX as int,
            },
    {
        let mut start_position = PhysicalAddress::invalid();
        match memory_map_entry {
            Some(area) => {
                if area.address <= usize::MAX as u64 {
                    start_position = area.start().round_down();
                }
            },
            None => {},
        }
        FrameIteratorForMemoryArea {
            memory_map_entry,
            current_position: start_position,
            kernel_area,
            multiboot_area,
        }
    }

    /// The next frame of the area that lies within it and clear of the kernel
    /// image and of the boot information; `None` when the area has no more.
    pub fn next(&mut self) -> (result: Option<Frame>)
        requires
            old(self).wf(),
        ensures
            final(self).wf(),
            final(self).spec_area() == old(self).spec_area(),
            final(self).spec_kernel_area() == old(self).spec_kernel_area(),
            final(self).spec_multiboot_area() == old(self).spec_multiboot_area(),
            match result {
                Some(frame) => {
                    &&& old(self).spec_next() == Some(frame.spec_start())
                    &&& frame.wf()
                    &&& final(self).spec_position() == frame.spec_start() + FRAME_SIZE
                },
                None => old(self).spec_next() is None && final(self).spec_next() is None,
            },
    {
        let area = match self.memory_map_entry {
            None => {
                return None;
            },
            Some(area) => area,
        };
        let end: u128 = area.address as u128 + area.length as u128;
        loop
            invariant
                self.wf(),
                self.memory_map_entry == Some(area),
                old(self).memory_map_entry == Some(area),
                self.kernel_area == old(self).kernel_area,
                self.multiboot_area == old(self).multiboot_area,
                end == area.spec_end(),
                self.spec_next() == old(self).spec_next(),
            decreases end - self.current_position@,
        {
            let position: usize = self.current_position.value();
            if position > usize::MAX - FRAME_SIZE || position as u128 + FRAME_SIZE as u128 > end {
                return None;
            }
            let frame = Frame::new(self.current_position);
            self.current_position.advance(FRAME_SIZE);
            if position as u64 >= area.address && self.is_frame_free(&frame) {
                return Some(frame);
            }
        }
    }

    /// The place from which the remaining frames are searched.
    pub fn position(&self) -> (result: PhysicalAddress)
        ensures
            result@ == self.spec_position(),
    {
        self.current_position
    }

    /// Whether `frame` lies clear of the kernel image and of the boot
    /// information.
    fn is_frame_free(&self, frame: &Frame) -> (free: bool)
        requires
            frame.wf(),
        ensures
            free == spec_frame_free(frame.spec_start(), self.kernel_area, self.multiboot_area),
    {
        let start_addr: usize = frame.start().value();
        let end_addr: usize = frame.end().value();
        !intersects(start_addr, end_addr, &self.kernel_area) && !intersects(
            start_addr,
            end_addr,
            &self.multiboot_area,
        )
    }
}

/// Whether the addresses from `start` up to `end` and `range` have an address
/// in common.
fn intersects(start: usize, end: usize, range: &Range<PhysicalAddress>) -> (result: bool)
    requires
        end == start + FRAME_SIZE,
    ensures
        result == spec_intersects(start as int, *range),
{
    let range_start: usize = range.start.value();
    let range_end: usize = range.end.value();
    start < range_end && range_start < end && range_start < range_end
}

/// The index of the first available area of `areas` from `index` on, or the
/// number of areas if there is none.
pub open spec fn spec_next_available(areas: Seq<MemoryMapEntry>, index: int) -> int
    decreases areas.len() - index,
{
    if index < 0 || index >= areas.len() {
        areas.len() as int
    } else if areas[index].spec_typ() == MemoryAreaType::Available {
        index
    } else {
        spec_next_available(areas, index + 1)
    }
}

/// Areas that are not available hold no frames: the search over the areas from
/// `index` on finds what the search from the next available area on finds.
pub proof fn lemma_scan_skips_unavailable(
    areas: Seq<MemoryMapEntry>,
    index: int,
    kernel_area: Range<PhysicalAddress>,
    multiboot_area: Range<PhysicalAddress>,
)
    requires
        0 <= index,
    ensures
        index <= spec_next_available(areas, index) <= areas.len() || index > areas.len(),
        spec_scan_areas(areas, index, kernel_area, multiboot_area) == spec_scan_areas(
            areas,
            spec_next_available(areas, index),
            kernel_area,
            multiboot_area,
        ),
        spec_next_available(areas, index) < areas.len() ==> areas[spec_next_available(
            areas,
            index,
        )].spec_typ() == MemoryAreaType::Available,
    decreases areas.len() - index,
{
    if index >= areas.len() {
    } else if areas[index].spec_typ() == MemoryAreaType::Available {
    } else {
        lemma_scan_skips_unavailable(areas, index + 1, kernel_area, multiboot_area);
    }
}

/// What an allocator knows: the areas of the memory map, how many of them it
/// has taken up, the area whose frames it is handing out and how far it has
/// come in it, and the two ranges that it keeps clear of.
pub struct AllocatorState {
    pub areas: Seq<MemoryMapEntry>,
    pub next_area: int,
    pub current: Option<MemoryMapEntry>,
    pub position: int,
    pub kernel_area: Range<PhysicalAddress>,
    pub multiboot_area: Range<PhysicalAddress>,
}

impl AllocatorState {
    pub open spec fn wf(self) -> bool {
        &&& 0 <= self.next_area <= self.areas.len()
        &&& 0 <= self.position <= usize::MAX
        &&& (self.position % 4096 == 0 || self.position + FRAME_SIZE > usize::MAX)
    }

    /// The next free frame of the area in hand, if it has one.
    pub open spec fn in_current(self) -> Option<int> {
        match self.current {
            None => None,
            Some(area) => spec_scan_area(
                area,
                self.position,
                self.kernel_area,
                self.multiboot_area,
            ),
        }
    }

    /// The next free frame of the areas not yet taken up, with its area.
    pub open spec fn in_rest(self) -> Option<(int, int)> {
        spec_scan_areas(self.areas, self.next_area, self.kernel_area, self.multiboot_area)
    }

    /// The start of the frame that the next allocation gives: the next free
    /// frame of the area in hand, else the first free frame of the first
    /// available area after it that has one, else none.
    pub open spec fn next_frame(self) -> Option<int> {
        if self.in_current() is Some {
            self.in_current()
        } else if self.in_rest() is Some {
            Some(self.in_rest()->Some_0.1)
        } else {
            None
        }
    }

    /// The state after the next allocation: just behind the frame given, in
    /// its area; or with no area in hand and none left when there was none to
    /// give.
    pub open spec fn after_allocation(self) -> AllocatorState {
        if self.in_current() is Some {
            AllocatorState { position: self.in_current()->Some_0 + FRAME_SIZE, ..self }
        } else if self.in_rest() is Some {
            AllocatorState {
                next_area: self.in_rest()->Some_0.0 + 1,
                current: Some(self.areas[self.in_rest()->Some_0.0]),
                position: self.in_rest()->Some_0.1 + FRAME_SIZE,
                ..self
            }
        } else {
            AllocatorState {
                next_area: self.areas.len() as int,
                current: None,
                position: usize::MAX as int,
                ..self
            }
        }
    }

    /// The number of frames that the allocator has left to give: the free
    /// frames of the area in hand from its place on, and those of the
    /// available areas that it has not yet taken up.
    pub open spec fn remaining(self) -> nat {
        (match self.current {
            Some(area) => spec_free_count(
                area,
                self.position,
                self.kernel_area,
                self.multiboot_area,
            ),
            None => 0,
        }) + spec_free_count_areas(
            self.areas,
            self.next_area,
            self.kernel_area,
            self.multiboot_area,
        )
    }

    /// The state in which an allocator over `areas` begins: the first
    /// available area in hand, at its start.
    pub open spec fn initial(
        areas: Seq<MemoryMapEntry>,
        kernel_area: Range<PhysicalAddress>,
        multiboot_area: Range<PhysicalAddress>,
    ) -> AllocatorState {
        let first = spec_next_available(areas, 0);
        if first < areas.len() {
            AllocatorState {
                areas,
                next_area: first + 1,
                current: Some(areas[first]),
                position: spec_first_position(areas[first]),
                kernel_area,
                multiboot_area,
            }
        } else {
            AllocatorState {
                areas,
                next_area: areas.len() as int,
                current: None,
                position: usize::MAX as int,
                kernel_area,
                multiboot_area,
            }
        }
    }
}

/// A frame that the search over the areas finds lies in an available area at or
/// after the one where the search began, and is the first free frame of that
/// area.
pub proof fn lemma_scan_areas_found(
    areas: Seq<MemoryMapEntry>,
    index: int,
    kernel_area: Range<PhysicalAddress>,
    multiboot_area: Range<PhysicalAddress>,
)
    requires
        0 <= index,
        spec_scan_areas(areas, index, kernel_area, multiboot_area) is Some,
    ensures
        ({
            let (area, frame) = spec_scan_areas(areas, index, kernel_area, multiboot_area)->Some_0;
            &&& index <= area < areas.len()
            &&& areas[area].spec_typ() == MemoryAreaType::Available
            &&& spec_scan_area(
                areas[area],
                spec_first_position(areas[area]),
                kernel_area,
                multiboot_area,
            ) == Some(frame)
        }),
    decreases areas.len() - index,
{
    if index >= areas.len() {
    } else if areas[index].spec_typ() == MemoryAreaType::Available && spec_scan_area(
        areas[index],
        spec_first_position(areas[index]),
        kernel_area,
        multiboot_area,
    ) is Some {
    } else {
        lemma_scan_areas_found(areas, index + 1, kernel_area, multiboot_area);
    }
}

/// Every frame that an allocator gives is a whole frame of its own that
/// touches neither the kernel image nor the boot information, and it lies
/// within the area in hand or within an available area of the memory map.
pub proof fn lemma_next_frame_is_free(state: AllocatorState)
    requires
        state.wf(),
        state.next_frame() is Some,
    ensures
        ({
            let frame = state.next_frame()->Some_0;
            &&& 0 <= frame
            &&& frame % 4096 == 0
            &&& frame + FRAME_SIZE <= usize::MAX
            &&& !spec_intersects(frame, state.kernel_area)
            &&& !spec_intersects(frame, state.multiboot_area)
            &&& ((state.current is Some && spec_frame_in_area(state.current->Some_0, frame))
                || exists|area: int|
                state.next_area <= area < state.areas.len() && (#[trigger] state.areas[area]).spec_typ()
                    == MemoryAreaType::Available && spec_frame_in_area(state.areas[area], frame))
        }),
{
    if state.in_current() is Some {
        lemma_scan_area_found(
            state.current->Some_0,
            state.position,
            state.kernel_area,
            state.multiboot_area,
        );
    } else {
        lemma_scan_areas_found(
            state.areas,
            state.next_area,
            state.kernel_area,
            state.multiboot_area,
        );
        let (area, frame) = state.in_rest()->Some_0;
        lemma_scan_area_found(
            state.areas[area],
            spec_first_position(state.areas[area]),
            state.kernel_area,
            state.multiboot_area,
        );
        assert(spec_frame_in_area(state.areas[area], frame));
    }
}

/// When the search over the areas finds nothing, every frame of every
/// available area from the one where the search began touches one of the two
/// ranges.
pub proof fn lemma_scan_areas_exhausted(
    areas: Seq<MemoryMapEntry>,
    index: int,
    kernel_area: Range<PhysicalAddress>,
    multiboot_area: Range<PhysicalAddress>,
    area: int,
    frame: int,
)
    requires
        0 <= index <= area < areas.len(),
        spec_scan_areas(areas, index, kernel_area, multiboot_area) is None,
        areas[area].spec_typ() == MemoryAreaType::Available,
        spec_frame_in_area(areas[area], frame),
    ensures
        !spec_frame_free(frame, kernel_area, multiboot_area),
    decreases areas.len() - index,
{
    if index < area {
        lemma_scan_areas_exhausted(areas, index + 1, kernel_area, multiboot_area, area, frame);
    } else {
        lemma_scan_area_exhausted(
            areas[area],
            spec_first_position(areas[area]),
            kernel_area,
            multiboot_area,
            frame,
        );
    }
}

/// An allocator gives `None` only when nothing is left: every frame of the
/// area in hand from its place on, and every frame of every available area
/// that it has not yet taken up, touches the kernel image or the boot
/// information.
pub proof fn lemma_none_means_exhausted(state: AllocatorState, frame: int)
    requires
        state.wf(),
        state.next_frame() is None,
    ensures
        state.current is Some && state.position % 4096 == 0 && frame >= state.position
            && spec_frame_in_area(state.current->Some_0, frame) ==> !spec_frame_free(
            frame,
            state.kernel_area,
            state.multiboot_area,
        ),
        forall|area: int|
            state.next_area <= area < state.areas.len() && (#[trigger] state.areas[area]).spec_typ()
                == MemoryAreaType::Available && spec_frame_in_area(state.areas[area], frame)
                ==> !spec_frame_free(frame, state.kernel_area, state.multiboot_area),
{
    if state.current is Some && state.position % 4096 == 0 && frame >= state.position
        && spec_frame_in_area(state.current->Some_0, frame) {
        lemma_scan_area_exhausted(
            state.current->Some_0,
            state.position,
            state.kernel_area,
            state.multiboot_area,
            frame,
        );
    }
    assert forall|area: int|
        state.next_area <= area < state.areas.len() && (#[trigger] state.areas[area]).spec_typ()
            == MemoryAreaType::Available && spec_frame_in_area(
            state.areas[area],
            frame,
        ) implies !spec_frame_free(frame, state.kernel_area, state.multiboot_area) by {
        lemma_scan_areas_exhausted(
            state.areas,
            state.next_area,
            state.kernel_area,
            state.multiboot_area,
            area,
            frame,
        );
    }
}

/// Once an allocator has given `None` it gives `None` for good.
pub proof fn lemma_exhausted_stays_exhausted(state: AllocatorState)
    requires
        state.wf(),
        state.next_frame() is None,
    ensures
        state.after_allocation().wf(),
        state.after_allocation().next_frame() is None,
{
}

/// The number of frames of `area` at or after `position`, in steps of a frame,
/// that lie within the area and clear of both ranges.
pub open spec fn spec_free_count(
    area: MemoryMapEntry,
    position: int,
    kernel_area: Range<PhysicalAddress>,
    multiboot_area: Range<PhysicalAddress>,
) -> nat
    decreases area.spec_end() - position,
{
    if position + FRAME_SIZE > area.spec_end() || position + FRAME_SIZE > usize::MAX {
        0
    } else if position >= area.address && spec_frame_free(position, kernel_area, multiboot_area) {
        1 + spec_free_count(area, position + FRAME_SIZE, kernel_area, multiboot_area)
    } else {
        spec_free_count(area, position + FRAME_SIZE, kernel_area, multiboot_area)
    }
}

/// The number of free frames of the available areas of `areas` from `index`
/// on.
pub open spec fn spec_free_count_areas(
    areas: Seq<MemoryMapEntry>,
    index: int,
    kernel_area: Range<PhysicalAddress>,
    multiboot_area: Range<PhysicalAddress>,
) -> nat
    decreases areas.len() - index,
{
    if index < 0 || index >= areas.len() {
        0
    } else if areas[index].spec_typ() == MemoryAreaType::Available {
        spec_free_count(
            areas[index],
            spec_first_position(areas[index]),
            kernel_area,
            multiboot_area,
        ) + spec_free_count_areas(areas, index + 1, kernel_area, multiboot_area)
    } else {
        spec_free_count_areas(areas, index + 1, kernel_area, multiboot_area)
    }
}

/// The search in an area finds a frame exactly where the area has a free frame
/// left, and the frame found is the first of them.
pub proof fn lemma_free_count_scan(
    area: MemoryMapEntry,
    position: int,
    kernel_area: Range<PhysicalAddress>,
    multiboot_area: Range<PhysicalAddress>,
)
    ensures
        match spec_scan_area(area, position, kernel_area, multiboot_area) {
            Some(found) => spec_free_count(area, position, kernel_area, multiboot_area) == 1
                + spec_free_count(area, found + FRAME_SIZE, kernel_area, multiboot_area),
            None => spec_free_count(area, position, kernel_area, multiboot_area) == 0,
        },
    decreases area.spec_end() - position,
{
    if position + FRAME_SIZE > area.spec_end() || position + FRAME_SIZE > usize::MAX {
    } else if position >= area.address && spec_frame_free(position, kernel_area, multiboot_area) {
    } else {
        lemma_free_count_scan(area, position + FRAME_SIZE, kernel_area, multiboot_area);
    }
}

/// The search over the areas finds a frame exactly where they have a free
/// frame left, and the frame found is the first of them.
pub proof fn lemma_free_count_areas_scan(
    areas: Seq<MemoryMapEntry>,
    index: int,
    kernel_area: Range<PhysicalAddress>,
    multiboot_area: Range<PhysicalAddress>,
)
    requires
        0 <= index,
    ensures
        match spec_scan_areas(areas, index, kernel_area, multiboot_area) {
            Some((area, found)) => spec_free_count_areas(areas, index, kernel_area, multiboot_area)
                == 1 + spec_free_count(
                areas[area],
                found + FRAME_SIZE,
                kernel_area,
                multiboot_area,
            ) + spec_free_count_areas(areas, area + 1, kernel_area, multiboot_area),
            None => spec_free_count_areas(areas, index, kernel_area, multiboot_area) == 0,
        },
    decreases areas.len() - index,
{
    if index >= areas.len() {
    } else {
        lemma_free_count_scan(
            areas[index],
            spec_first_position(areas[index]),
            kernel_area,
            multiboot_area,
        );
        lemma_free_count_areas_scan(areas, index + 1, kernel_area, multiboot_area);
    }
}

/// Each frame that an allocator gives is one of the free frames that it had
/// left, and it gives `None` exactly when it has none left: the frames that
/// it gives until then are as many as the free frames of the area in hand and
/// of the available areas that follow.
pub proof fn lemma_remaining(state: AllocatorState)
    requires
        state.wf(),
    ensures
        state.after_allocation().wf(),
        match state.next_frame() {
            Some(_) => state.after_allocation().remaining() + 1 == state.remaining(),
            None => state.remaining() == 0 && state.after_allocation().remaining() == 0,
        },
{
    if state.current is Some {
        lemma_free_count_scan(
            state.current->Some_0,
            state.position,
            state.kernel_area,
            state.multiboot_area,
        );
    }
    lemma_free_count_areas_scan(
        state.areas,
        state.next_area,
        state.kernel_area,
        state.multiboot_area,
    );
    if state.next_frame() is Some {
        lemma_next_frame_is_free(state);
        if state.in_current() is None {
            lemma_scan_areas_found(
                state.areas,
                state.next_area,
                state.kernel_area,
                state.multiboot_area,
            );
        }
    }
}

/// A source of frames of physical memory.
pub trait FrameAllocator {
    /// What the allocator needs to hold between calls.
    spec fn allocator_wf(&self) -> bool;

    /// A frame that the caller owns from now on, or `None` when the allocator
    /// has none left.
    fn allocate_frame(&mut self) -> (result: Option<Frame>)
        requires
            old(self).allocator_wf(),
        ensures
            final(self).allocator_wf(),
            result is Some ==> result->Some_0.wf(),
    ;

    /// Whether the allocator can take `frame` back.
    spec fn spec_can_deallocate(&self, frame: Frame) -> bool;

    /// Gives `frame` back to the allocator, for an allocator that can take it.
    fn deallocate_frame(&mut self, frame: Frame)
        requires
            old(self).allocator_wf(),
            old(self).spec_can_deallocate(frame),
        ensures
            final(self).allocator_wf(),
    ;
}

/// Hands out the free frames of the available areas of a memory map, area by
/// area in the order of the map and from the start of each area upwards,
/// keeping clear of the kernel image and of the boot information.
pub struct SimpleFrameAllocator<'a> {
    frame_iter: FrameIteratorForMemoryArea,
    memory_map_iter: MemoryMapEntryIterator<'a>,
    kernel_area: Range<PhysicalAddress>,
    multiboot_area: Range<PhysicalAddress>,
}

impl<'a> View for SimpleFrameAllocator<'a> {
    type V = AllocatorState;

    closed spec fn view(&self) -> AllocatorState {
        AllocatorState {
            areas: self.memory_map_iter.spec_areas(),
            next_area: self.memory_map_iter.spec_position(),
            current: self.frame_iter.spec_area(),
            position: self.frame_iter.spec_position(),
            kernel_area: self.kernel_area,
            multiboot_area: self.multiboot_area,
        }
    }
}

impl<'a> SimpleFrameAllocator<'a> {
    pub closed spec fn wf(&self) -> bool {
        &&& self.memory_map_iter.wf()
        &&& self.frame_iter.wf()
        &&& self.frame_iter.spec_kernel_area() == self.kernel_area
        &&& self.frame_iter.spec_multiboot_area() == self.multiboot_area
    }

    pub proof fn lemma_wf(&self)
        requires
            self.wf(),
        ensures
            self@.wf(),
    {
    }

    /// An allocator over the areas of `memory_map` that keeps clear of
    /// `kernel_area` and of `multiboot_area`, with the first available area in
    /// hand.
    pub fn init(
        memory_map: &'a MemoryMapTag,
        kernel_area: Range<PhysicalAddress>,
        multiboot_area: Range<PhysicalAddress>,
    ) -> (result: SimpleFrameAllocator<'a>)
        ensures
            result.wf(),
            result@ == AllocatorState::initial(memory_map.entries@, kernel_area, multiboot_area),
    {
        let mut memory_areas = memory_map.get_memory_areas();
        let first_memory_area = Self::get_next_available_memory_area(&mut memory_areas);
        let memory_area_iterator = FrameIteratorForMemoryArea::new(
            first_memory_area,
            Range { start: kernel_area.start, end: kernel_area.end },
            Range { start: multiboot_area.start, end: multiboot_area.end },
        );
        SimpleFrameAllocator {
            kernel_area,
            multiboot_area,
            memory_map_iter: memory_areas,
            frame_iter: memory_area_iterator,
        }
    }

    /// Takes areas from the iterator up to and with the first available one,
    /// and gives that one; `None` when the iterator runs out first.
    fn get_next_available_memory_area(memory_map_iter: &mut MemoryMapEntryIterator) -> (result:
        Option<MemoryMapEntry>)
        requires
            old(memory_map_iter).wf(),
        ensures
            final(memory_map_iter).wf(),
            final(memory_map_iter).spec_areas() == old(memory_map_iter).spec_areas(),
            ({
                let areas = old(memory_map_iter).spec_areas();
                let found = spec_next_available(areas, old(memory_map_iter).spec_position());
                match result {
                    Some(area) => {
                        &&& found < areas.len()
                        &&& area == areas[found]
                        &&& final(memory_map_iter).spec_position() == found + 1
                    },
                    None => {
                        &&& found == areas.len()
                        &&& final(memory_map_iter).spec_position() == areas.len()
                    },
                }
            }),
    {
        loop
            invariant
                memory_map_iter.wf(),
                memory_map_iter.spec_areas() == old(memory_map_iter).spec_areas(),
                0 <= memory_map_iter.spec_position(),
                spec_next_available(memory_map_iter.spec_areas(), memory_map_iter.spec_position())
                    == spec_next_available(
                    old(memory_map_iter).spec_areas(),
                    old(memory_map_iter).spec_position(),
                ),
            decreases memory_map_iter.spec_areas().len() - memory_map_iter.spec_position(),
        {
            match memory_map_iter.next() {
                None => {
                    return None;
                },
                Some(area) => {
                    if area.typ() == MemoryAreaType::Available {
                        return Some(area);
                    }
                },
            }
        }
    }

    /// How far the allocator has come.
    pub fn position(&self) -> (result: PhysicalAddress)
        ensures
            result@ == self@.position,
    {
        self.frame_iter.position()
    }
}

impl<'a> FrameAllocator for SimpleFrameAllocator<'a> {
    open spec fn allocator_wf(&self) -> bool {
        self.wf()
    }

    /// This allocator keeps no list of free frames: it can take none back.
    open spec fn spec_can_deallocate(&self, frame: Frame) -> bool {
        false
    }

    /// There is no frame that this allocator can take back, so no call of
    /// this is in order, and one that is made all the same stops the kernel.
    fn deallocate_frame(&mut self, frame: Frame) {
        vstd::pervasive::unreached()
    }

    /// The next free frame in the order of the allocator. `None` means that
    /// every frame of every available area has been given or touches one of
    /// the two ranges; every later call then gives `None` too.
    fn allocate_frame(&mut self) -> (result: Option<Frame>)
        ensures
            final(self)@ == old(self)@.after_allocation(),
            match result {
                Some(frame) => {
                    &&& old(self)@.next_frame() == Some(frame.spec_start())
                    &&& !spec_intersects(frame.spec_start(), old(self)@.kernel_area)
                    &&& !spec_intersects(frame.spec_start(), old(self)@.multiboot_area)
                },
                None => old(self)@.next_frame() is None,
            },
    {
        proof {
            self.lemma_wf();
            if self@.next_frame() is Some {
                lemma_next_frame_is_free(self@);
            }
        }
        loop
            invariant
                self.wf(),
                old(self)@.next_frame() is Some ==> spec_frame_free(
                    old(self)@.next_frame()->Some_0,
                    old(self)@.kernel_area,
                    old(self)@.multiboot_area,
                ),
                self@.areas == old(self)@.areas,
                self@.kernel_area == old(self)@.kernel_area,
                self@.multiboot_area == old(self)@.multiboot_area,
                self@.next_frame() == old(self)@.next_frame(),
                self@.after_allocation() == old(self)@.after_allocation(),
            decreases self@.areas.len() - self@.next_area,
        {
            match self.frame_iter.next() {
                Some(frame) => {
                    return Some(frame);
                },
                None => {},
            }
            proof {
                lemma_scan_skips_unavailable(
                    self@.areas,
                    self@.next_area,
                    self@.kernel_area,
                    self@.multiboot_area,
                );
            }
            let next_memory_area = Self::get_next_available_memory_area(&mut self.memory_map_iter);
            self.frame_iter = FrameIteratorForMemoryArea::new(
                next_memory_area,
                Range { start: self.kernel_area.start, end: self.kernel_area.end },
                Range { start: self.multiboot_area.start, end: self.multiboot_area.end },
            );
            if next_memory_area.is_none() {
                return None;
            }
        }
    }
}

} // verus!
