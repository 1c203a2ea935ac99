//! The one-shot command executor's plan: the fixed sequence that runs one
//! recorded payload synchronously on the graphics queue at setup time.
//!
//! The executor allocates a primary command buffer, begins it, lets the
//! caller record into it, ends it, submits it with a throwaway fence, blocks
//! until the queue is idle, and frees the fence and the buffer. Every
//! staged transfer goes through this plan, so each setup-time upload fully
//! stalls the queue — accepted, because it never runs in the per-frame path.

use vstd::prelude::*;

verus! {

/// One step of the one-shot execution.
#[derive(Clone, Copy, Debug, PartialEq, Eq, Structural)]
pub enum OneShotStep {
    AllocateCommandBuffer,
    BeginCommandBuffer,
    RecordPayload,
    EndCommandBuffer,
    SubmitWithFence,
    WaitQueueIdle,
    DestroyFence,
    FreeCommandBuffer,
}

/// The one-shot plan: recording happens strictly between begin and end, the
/// submission precedes the idle wait, and both frees come after the queue
/// has drained.
pub open spec fn spec_one_shot_steps() -> Seq<OneShotStep> {
    seq![
        OneShotStep::AllocateCommandBuffer,
        OneShotStep::BeginCommandBuffer,
        OneShotStep::RecordPayload,
        OneShotStep::EndCommandBuffer,
        OneShotStep::SubmitWithFence,
        OneShotStep::WaitQueueIdle,
        OneShotStep::DestroyFence,
        OneShotStep::FreeCommandBuffer,
    ]
}

/// The ordered steps of one synchronous one-shot submission.
pub fn one_shot_steps() -> (steps: Vec<OneShotStep>)
    ensures
        steps@ == spec_one_shot_steps(),
{
    let mut steps: Vec<OneShotStep> = Vec::new();
    steps.push(OneShotStep::AllocateCommandBuffer);
    steps.push(OneShotStep::BeginCommandBuffer);
    steps.push(OneShotStep::RecordPayload);
    steps.push(OneShotStep::EndCommandBuffer);
    steps.push(OneShotStep::SubmitWithFence);
    steps.push(OneShotStep::WaitQueueIdle);
    steps.push(OneShotStep::DestroyFence);
    steps.push(OneShotStep::FreeCommandBuffer);
    proof {
        assert(steps@ =~= spec_one_shot_steps());
    }
    steps
}

} // verus!
