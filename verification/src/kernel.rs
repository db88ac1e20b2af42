//! The order in which the kernel brings the processor up.
use vstd::prelude::*;

verus! {

/// The steps of the start of the kernel that touch the processor.
#[derive(Clone, Copy, Debug, PartialEq, Eq, Structural)]
pub enum InitStep {
    /// Load the descriptor table.
    LoadDescriptorTable,
    /// Reload the code segment register, so that the new code segment is in
    /// use.
    ReloadCodeSegment,
    /// Load the task state segment, whose descriptor the table holds.
    LoadTaskStateSegment,
    /// Load the interrupt table.
    LoadInterruptTable,
    /// Move the interrupts of the interrupt controllers away from the vectors
    /// of the exceptions.
    RemapInterruptControllers,
    /// Let interrupts through.
    EnableInterrupts,
}

/// The one order of the steps that the processor allows: the descriptor
/// table before the code segment and the task state segment; these, the
/// interrupt table and the controllers before interrupts are let through.
pub open spec fn spec_init_order() -> Seq<InitStep> {
    seq![
        InitStep::LoadDescriptorTable,
        InitStep::ReloadCodeSegment,
        InitStep::LoadTaskStateSegment,
        InitStep::LoadInterruptTable,
        InitStep::RemapInterruptControllers,
        InitStep::EnableInterrupts,
    ]
}

/// The steps of the start, in the order in which they are to be taken.
pub fn init() -> (result: Vec<InitStep>)
    ensures
        result@ == spec_init_order(),
{
    let mut steps: Vec<InitStep> = Vec::new();
    steps.push(InitStep::LoadDescriptorTable);
    steps.push(InitStep::ReloadCodeSegment);
    steps.push(InitStep::LoadTaskStateSegment);
    steps.push(InitStep::LoadInterruptTable);
    steps.push(InitStep::RemapInterruptControllers);
    steps.push(InitStep::EnableInterrupts);
    assert(steps@ =~= spec_init_order());
    steps
}

/// Interrupts are let through last: when they are, every table is loaded and
/// the controllers are remapped. The descriptor table is loaded first.
pub proof fn lemma_init_order(place: int)
    requires
        0 <= place < spec_init_order().len(),
    ensures
        spec_init_order()[place] == InitStep::EnableInterrupts <==> place == spec_init_order().len()
            - 1,
        spec_init_order()[place] == InitStep::LoadDescriptorTable <==> place == 0,
{
}

} // verus!
