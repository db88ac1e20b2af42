//! Allocation of physical memory: the allocator of the kernel and the slot
//! that holds it once it has been set up.
pub mod frame_allocator;

use crate::allocator::frame_allocator::{
    lemma_remaining,
    spec_intersects,
    AllocatorState,
    Frame,
    FrameAllocator,
    SimpleFrameAllocator,
};
use crate::boot::multiboot_memory_map::MemoryMapTag;
use crate::physical_address::PhysicalAddress;
use core::ops::Range;
use vstd::prelude::*;

verus! {

/// Sets up the allocator of the kernel in `slot`, which must be empty: the
/// allocator is set up once.
pub fn init_allocator<'a>(
    slot: &mut Option<SimpleFrameAllocator<'a>>,
    memory_map: &'a MemoryMapTag,
    kernel_area: Range<PhysicalAddress>,
    multiboot_area: Range<PhysicalAddress>,
)
    requires
        *old(slot) is None,
    ensures
        *final(slot) is Some,
        final(slot)->Some_0.wf(),
        final(slot)->Some_0@ == AllocatorState::initial(
            memory_map.entries@,
            kernel_area,
            multiboot_area,
        ),
{
    let initialized_allocator = SimpleFrameAllocator::init(memory_map, kernel_area, multiboot_area);
    *slot = Some(initialized_allocator);
}

/// The next frame of the allocator in `slot`, which must have been set up.
pub fn allocate_frame<'a>(slot: &mut Option<SimpleFrameAllocator<'a>>) -> (result: Option<Frame>)
    requires
        *old(slot) is Some,
        old(slot)->Some_0.wf(),
    ensures
        *final(slot) is Some,
        final(slot)->Some_0.wf(),
        final(slot)->Some_0@ == old(slot)->Some_0@.after_allocation(),
        match result {
            Some(frame) => {
                &&& frame.wf()
                &&& old(slot)->Some_0@.next_frame() == Some(frame.spec_start())
                &&& !spec_intersects(frame.spec_start(), old(slot)->Some_0@.kernel_area)
                &&& !spec_intersects(frame.spec_start(), old(slot)->Some_0@.multiboot_area)
            },
            None => old(slot)->Some_0@.next_frame() is None,
        },
{
    match slot {
        Some(allocator) => allocator.allocate_frame(),
        None => None,
    }
}

/// Gives `frame` back to the allocator in `slot`, if it is one that can take
/// it. The allocator of the kernel takes no frame back.
pub fn deallocate_frame<'a>(slot: &mut Option<SimpleFrameAllocator<'a>>, frame: Frame)
    requires
        *old(slot) is Some,
        old(slot)->Some_0.wf(),
        old(slot)->Some_0.spec_can_deallocate(frame),
    ensures
        *final(slot) is Some,
        final(slot)->Some_0.wf(),
{
    match slot {
        Some(allocator) => allocator.deallocate_frame(frame),
        None => {},
    }
}

/// Most frames that `test_alloc` takes.
pub const TEST_FRAMES: usize = 260;

/// The starts of the next `count` frames that an allocator in `state` gives,
/// or of all that it has if those are fewer.
pub open spec fn spec_take_frames(state: AllocatorState, count: nat) -> Seq<int>
    decreases count,
{
    if count == 0 || state.next_frame() is None {
        seq![]
    } else {
        seq![state.next_frame()->Some_0] + spec_take_frames(
            state.after_allocation(),
            (count - 1) as nat,
        )
    }
}

/// An allocator gives as many frames as it has free frames left, and no more
/// than it is asked for.
pub proof fn lemma_take_frames_len(state: AllocatorState, count: nat)
    requires
        state.wf(),
    ensures
        spec_take_frames(state, count).len() == if count <= state.remaining() {
            count
        } else {
            state.remaining()
        },
    decreases count,
{
    lemma_remaining(state);
    if count > 0 && state.next_frame() is Some {
        lemma_take_frames_len(state.after_allocation(), (count - 1) as nat);
    }
}

/// The starts of `frames`, in their order.
pub open spec fn spec_starts(frames: Seq<Frame>) -> Seq<int> {
    frames.map_values(|frame: Frame| frame.spec_start())
}

/// Tries the allocator on `map`: sets one up and takes frames from it until
/// it has none left, and no more than `TEST_FRAMES`. Gives the frames in the
/// order in which they came.
pub fn test_alloc(
    map: &MemoryMapTag,
    kernel_area: Range<PhysicalAddress>,
    multiboot_area: Range<PhysicalAddress>,
) -> (result: Vec<Frame>)
    ensures
        spec_starts(result@) == spec_take_frames(
            AllocatorState::initial(map.entries@, kernel_area, multiboot_area),
            TEST_FRAMES as nat,
        ),
        result@.len() <= TEST_FRAMES,
        result@.len() == if TEST_FRAMES <= AllocatorState::initial(
            map.entries@,
            kernel_area,
            multiboot_area,
        ).remaining() {
            TEST_FRAMES as nat
        } else {
            AllocatorState::initial(map.entries@, kernel_area, multiboot_area).remaining()
        },
        forall|i: int|
            0 <= i < result@.len() ==> (#[trigger] result@[i]).wf() && !spec_intersects(
                result@[i].spec_start(),
                kernel_area,
            ) && !spec_intersects(result@[i].spec_start(), multiboot_area),
{
    let ghost initial = AllocatorState::initial(map.entries@, kernel_area, multiboot_area);
    let mut allocator = SimpleFrameAllocator::init(map, kernel_area, multiboot_area);
    proof {
        allocator.lemma_wf();
        lemma_take_frames_len(initial, TEST_FRAMES as nat);
    }
    let mut frames: Vec<Frame> = Vec::new();
    let mut taken: usize = 0;
    assert(spec_starts(frames@) =~= seq![]);
    while taken < TEST_FRAMES
        invariant
            taken <= TEST_FRAMES,
            frames@.len() == taken,
            initial == AllocatorState::initial(map.entries@, kernel_area, multiboot_area),
            spec_take_frames(initial, TEST_FRAMES as nat).len() == if TEST_FRAMES
                <= initial.remaining() {
                TEST_FRAMES as nat
            } else {
                initial.remaining()
            },
            allocator.wf(),
            allocator@.kernel_area == kernel_area,
            allocator@.multiboot_area == multiboot_area,
            spec_starts(frames@) + spec_take_frames(allocator@, (TEST_FRAMES - taken) as nat)
                == spec_take_frames(initial, TEST_FRAMES as nat),
            forall|i: int|
                0 <= i < frames@.len() ==> (#[trigger] frames@[i]).wf() && !spec_intersects(
                    frames@[i].spec_start(),
                    kernel_area,
                ) && !spec_intersects(frames@[i].spec_start(), multiboot_area),
        decreases TEST_FRAMES - taken,
    {
        let ghost before = frames@;
        let ghost state = allocator@;
        match allocator.allocate_frame() {
            Some(frame) => {
                frames.push(frame);
                taken = taken + 1;
                proof {
                    let rest = spec_take_frames(allocator@, (TEST_FRAMES - taken) as nat);
                    assert(spec_starts(frames@) =~= spec_starts(before) + seq![frame.spec_start()]);
                    assert(spec_starts(frames@) + rest =~= spec_starts(before) + (seq![
                        frame.spec_start(),
                    ] + rest));
                }
            },
            None => {
                assert(spec_starts(frames@) + spec_take_frames(
                    state,
                    (TEST_FRAMES - taken) as nat,
                ) =~= spec_starts(frames@));
                return frames;
            },
        }
    }
    assert(spec_starts(frames@) + spec_take_frames(allocator@, 0) =~= spec_starts(frames@));
    frames
}

} // verus!
