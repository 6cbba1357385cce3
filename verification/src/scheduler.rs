//! The hot-reload path on the render side: the capacity-1 descriptor slot
//! the bridge publishes into, and the frame scheduler's pipeline-swap
//! state. The scheduler polls the slot without waiting, attempts a
//! recompilation when a descriptor is pending, and swaps the active
//! pipeline only on success; a failed compile leaves the active pipeline
//! exactly as it was.
//!
//! The slot coalesces: a publish into an undrained slot replaces the
//! pending value, so only the latest completed edit is guaranteed to reach
//! the renderer.

use vstd::prelude::*;
use crate::toy::Toy;

verus! {

/// The single-slot descriptor channel between the bridge and the frame
/// scheduler. It holds at most one pending descriptor; publishing into an
/// occupied slot overwrites it (latest wins).
pub struct UpdateSlot {
    /// The one pending descriptor, if any.
    pub pending: Option<Toy>,
}

/// Effect of publishing one descriptor: whatever was pending is replaced.
pub open spec fn spec_publish(p: Option<Toy>, t: Toy) -> Option<Toy> {
    Some(t)
}

/// Effect of publishing a burst of descriptors in order.
pub open spec fn spec_publish_all(p: Option<Toy>, edits: Seq<Toy>) -> Option<Toy>
    decreases edits.len(),
{
    if edits.len() == 0 {
        p
    } else {
        spec_publish_all(spec_publish(p, edits[0]), edits.drop_first())
    }
}

impl UpdateSlot {
    /// An empty slot.
    pub fn new() -> (s: UpdateSlot)
        ensures
            s.pending is None,
    {
        UpdateSlot { pending: None }
    }

    /// Publish a descriptor: latest wins, nothing queues.
    pub fn publish(&mut self, t: Toy)
        ensures
            final(self).pending == spec_publish(old(self).pending, t),
    {
        self.pending = Some(t);
    }

    /// Drain the slot without waiting: the pending descriptor if one is
    /// there, and an empty slot afterwards either way.
    pub fn take(&mut self) -> (r: Option<Toy>)
        ensures
            r == old(self).pending,
            final(self).pending is None,
    {
        self.pending.take()
    }
}

/// Law: the slot coalesces. After any non-empty burst of publishes, the
/// one pending descriptor is the latest edit, whatever was pending before.
pub proof fn lemma_slot_coalesces(p: Option<Toy>, edits: Seq<Toy>)
    requires
        edits.len() > 0,
    ensures
        spec_publish_all(p, edits) == Some(edits.last()),
    decreases edits.len(),
{
    if edits.len() == 1 {
    } else {
        lemma_slot_coalesces(spec_publish(p, edits[0]), edits.drop_first());
        assert(edits.drop_first().last() == edits.last());
    }
}

/// The active pipeline: the GPU handle the host built, together with the
/// descriptor it was compiled from.
pub struct ActivePipeline {
    /// Opaque handle of the compiled pipeline, assigned by the host.
    pub handle: u64,
    /// The descriptor this pipeline was compiled from.
    pub descriptor: Toy,
}

/// What one recompilation attempt came to. The host compiles the composed
/// fragment program and reports the new pipeline's handle, or that the
/// compiler rejected the source.
pub enum CompileOutcome {
    Success { handle: u64 },
    Failure,
}

/// Effect of one recompilation attempt on the active pipeline: success
/// swaps it as a whole, failure leaves it untouched.
pub open spec fn spec_apply_compile(
    a: Option<ActivePipeline>,
    t: Toy,
    outcome: CompileOutcome,
) -> Option<ActivePipeline> {
    match outcome {
        CompileOutcome::Success { handle } => Some(ActivePipeline { handle, descriptor: t }),
        CompileOutcome::Failure => a,
    }
}

/// Effect of a sequence of recompilation attempts, in order.
pub open spec fn spec_apply_compiles(
    a: Option<ActivePipeline>,
    steps: Seq<(Toy, CompileOutcome)>,
) -> Option<ActivePipeline>
    decreases steps.len(),
{
    if steps.len() == 0 {
        a
    } else {
        spec_apply_compile(
            spec_apply_compiles(a, steps.drop_last()),
            steps.last().0,
            steps.last().1,
        )
    }
}

/// The pipeline from the last successful attempt of a sequence, if any
/// succeeded.
pub open spec fn spec_last_success(steps: Seq<(Toy, CompileOutcome)>) -> Option<ActivePipeline>
    decreases steps.len(),
{
    if steps.len() == 0 {
        None
    } else {
        match steps.last().1 {
            CompileOutcome::Success { handle } => Some(
                ActivePipeline { handle, descriptor: steps.last().0 },
            ),
            CompileOutcome::Failure => spec_last_success(steps.drop_last()),
        }
    }
}

/// The frame scheduler's pipeline state. Owned by the render thread; the
/// previous pipeline is released by the host only after a new one has been
/// confirmed valid.
pub struct Scheduler {
    /// The active pipeline, present from the first successful compile on.
    pub active: Option<ActivePipeline>,
}

impl Scheduler {
    /// Before the first compile: nothing to draw with.
    pub fn new() -> (s: Scheduler)
        ensures
            s.active is None,
    {
        Scheduler { active: None }
    }

    /// Record the outcome of one recompilation attempt for a polled
    /// descriptor: swap the whole pipeline on success, keep the current
    /// one unchanged on failure.
    pub fn apply_compile(&mut self, descriptor: Toy, outcome: CompileOutcome)
        ensures
            final(self).active == spec_apply_compile(old(self).active, descriptor, outcome),
    {
        match outcome {
            CompileOutcome::Success { handle } => {
                self.active = Some(ActivePipeline { handle, descriptor });
            },
            CompileOutcome::Failure => {},
        }
    }

    /// Which pipeline the draw step binds: the active one, or none, in
    /// which case the draw is skipped.
    pub fn draw_handle(&self) -> (r: Option<u64>)
        ensures
            match self.active {
                Some(p) => r == Some(p.handle),
                None => r is None,
            },
    {
        match &self.active {
            Some(p) => Some(p.handle),
            None => None,
        }
    }
}

/// Law: after any sequence of recompilation attempts has settled, the
/// active pipeline is the one from the last successful attempt — never a
/// stale or partial one — and with no success at all, the initial state
/// remains.
pub proof fn lemma_settled_active(a0: Option<ActivePipeline>, steps: Seq<(Toy, CompileOutcome)>)
    ensures
        spec_apply_compiles(a0, steps) == match spec_last_success(steps) {
            Some(p) => Some(p),
            None => a0,
        },
    decreases steps.len(),
{
    if steps.len() > 0 {
        lemma_settled_active(a0, steps.drop_last());
    }
}

/// Law: after the first successful compile a valid pipeline always
/// exists: later attempts can replace it as a whole, never remove it.
pub proof fn lemma_pipeline_persists(a: Option<ActivePipeline>, steps: Seq<(Toy, CompileOutcome)>)
    requires
        a is Some,
    ensures
        spec_apply_compiles(a, steps) is Some,
    decreases steps.len(),
{
    if steps.len() > 0 {
        lemma_pipeline_persists(a, steps.drop_last());
    }
}

/// Law: a failed compile changes nothing: the frame rendered right after
/// binds the very pipeline that was active before the attempt.
pub proof fn lemma_failed_compile_keeps_pipeline(a: Option<ActivePipeline>, t: Toy)
    ensures
        spec_apply_compile(a, t, CompileOutcome::Failure) == a,
{
}

/// Law: a settled burst of edits, one poll, one successful compile: the
/// active pipeline was built from the burst's last edit.
pub proof fn lemma_hot_reload_settles(
    a0: Option<ActivePipeline>,
    edits: Seq<Toy>,
    handle: u64,
)
    requires
        edits.len() > 0,
    ensures
        ({
            let pending = spec_publish_all(None, edits);
            pending is Some && spec_apply_compile(
                a0,
                pending->0,
                CompileOutcome::Success { handle },
            ) == Some(ActivePipeline { handle, descriptor: edits.last() })
        }),
{
    lemma_slot_coalesces(None, edits);
}

} // verus!
