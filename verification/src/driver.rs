use vstd::prelude::*;

use crate::ring::{slot_of, FRAMES_IN_FLIGHT};

verus! {

/// Outcome of asking the swapchain for the next presentable image.
#[derive(Clone, Copy, PartialEq, Eq, Structural, Debug)]
pub enum AcquireOutcome {
    /// An image is available; the frame goes on through wait, record, submit
    /// and present.
    Acquired,
    /// The swapchain is out of date, the surface was lost or the wait timed
    /// out; the frame is aborted, nothing is submitted, and the swapchain is
    /// recreated before the next acquire.
    Failed,
}

/// Outcome the presentation engine reports after a submitted frame's image
/// was handed to it.
#[derive(Clone, Copy, PartialEq, Eq, Structural, Debug)]
pub enum PresentOutcome {
    /// Presented cleanly.
    Presented,
    /// Presented, but the swapchain no longer matches the surface optimally;
    /// recreate it before the next acquire.
    Suboptimal,
    /// Presentation failed; recreate the swapchain before the next acquire.
    /// The submitted work itself remains valid.
    Failed,
}

/// One GPU-facing step of a frame, all on the frame's own ring slot.
#[derive(Clone, Copy, PartialEq, Eq, Structural, Debug)]
pub enum FrameOp {
    /// Block until the slot's fence signals: the slot's previous submission,
    /// if any, has completed.
    WaitFence { slot: usize },
    /// Return the fence to the unsignaled state for this frame's submission.
    ResetFence { slot: usize },
    /// Reset the slot's command pool wholesale, discarding prior recordings.
    ResetPool { slot: usize },
    /// Record this frame's commands: bind a transient framebuffer, begin the
    /// command buffer one-time-submit, clear the full render area, end.
    RecordCommands { slot: usize },
    /// Submit the recorded buffer, signalling the slot's semaphore and fence
    /// on completion.
    SubmitCommands { slot: usize },
    /// Present the acquired image, waiting GPU-side on the slot's semaphore.
    PresentImage { slot: usize },
}

/// The fixed order of work for a frame on ring slot `slot`: wait for the
/// slot's prior fence, reset the fence, reset the slot's command pool, record
/// the new commands, submit them, present the image.
pub open spec fn spec_frame_plan(slot: usize) -> Seq<FrameOp> {
    seq![
        FrameOp::WaitFence { slot },
        FrameOp::ResetFence { slot },
        FrameOp::ResetPool { slot },
        FrameOp::RecordCommands { slot },
        FrameOp::SubmitCommands { slot },
        FrameOp::PresentImage { slot },
    ]
}

/// In every frame plan, the slot's fence wait stands strictly before the
/// slot's command-pool reset: a pool is only ever reset after the fence
/// guarding the slot's previous submission has signaled, so no two in-flight
/// submissions ever reference the same slot's command buffer.
pub proof fn lemma_fence_wait_precedes_pool_reset(slot: usize)
    ensures
        forall|k: int|
            0 <= k < spec_frame_plan(slot).len() && spec_frame_plan(slot)[k] == (
            FrameOp::ResetPool { slot }) ==> exists|w: int|
                0 <= w < k && spec_frame_plan(slot)[w] == (FrameOp::WaitFence { slot }),
{
    let p = spec_frame_plan(slot);
    assert forall|k: int|
        0 <= k < p.len() && p[k] == (FrameOp::ResetPool { slot }) implies exists|w: int|
        0 <= w < k && p[w] == (FrameOp::WaitFence { slot }) by {
        assert(k == 2);
        assert(0 <= 0 < k && p[0] == (FrameOp::WaitFence { slot }));
    }
}

/// Likewise, the submission stands strictly after the pool reset and the
/// recording, and the present comes last.
pub proof fn lemma_plan_order(slot: usize)
    ensures
        spec_frame_plan(slot).len() == 6,
        spec_frame_plan(slot)[0] == (FrameOp::WaitFence { slot }),
        spec_frame_plan(slot)[1] == (FrameOp::ResetFence { slot }),
        spec_frame_plan(slot)[2] == (FrameOp::ResetPool { slot }),
        spec_frame_plan(slot)[3] == (FrameOp::RecordCommands { slot }),
        spec_frame_plan(slot)[4] == (FrameOp::SubmitCommands { slot }),
        spec_frame_plan(slot)[5] == (FrameOp::PresentImage { slot }),
{
}

/// CPU-side synchronization state of the frame resource ring: `pending[s]`
/// is true from the moment a command buffer is submitted on slot `s` until
/// the CPU has waited on that slot's fence. The real ring's fences are
/// created signaled, so a fresh ring has no pending slot and the very first
/// wait on any slot never blocks.
pub struct FrameRing {
    pub pending: Vec<bool>,
}

impl FrameRing {
    /// The ring has exactly one slot per frame in flight.
    pub open spec fn wf(self) -> bool {
        self.pending@.len() == FRAMES_IN_FLIGHT
    }

    /// Whether slot `s` carries a submission whose completion the CPU has not
    /// yet observed.
    pub open spec fn spec_pending(self, s: int) -> bool {
        self.pending@[s]
    }

    /// A fresh ring: no slot pending.
    pub fn new() -> (r: FrameRing)
        ensures
            r.wf(),
            forall|s: int| 0 <= s < FRAMES_IN_FLIGHT ==> !r.spec_pending(s),
    {
        let mut pending: Vec<bool> = Vec::new();
        pending.push(false);
        pending.push(false);
        pending.push(false);
        FrameRing { pending }
    }

    /// Block until the slot's fence signals. Models the unbounded
    /// `wait_for_fence`: this is the backpressure that keeps the CPU at most
    /// `FRAMES_IN_FLIGHT` frames ahead of the GPU. Afterwards the slot has no
    /// pending submission.
    pub fn wait_fence(&mut self, slot: usize)
        requires
            old(self).wf(),
            slot < FRAMES_IN_FLIGHT,
        ensures
            final(self).wf(),
            !final(self).spec_pending(slot as int),
            forall|s: int|
                0 <= s < FRAMES_IN_FLIGHT && s != slot ==> final(self).spec_pending(s) == old(
                    self,
                ).spec_pending(s),
    {
        self.pending[slot] = false;
    }

    /// Return the slot's fence to the unsignaled state for the coming
    /// submission. Only legal once the slot has no pending submission, else
    /// the signal of the in-flight work would be lost.
    pub fn reset_fence(&mut self, slot: usize)
        requires
            old(self).wf(),
            slot < FRAMES_IN_FLIGHT,
            !old(self).spec_pending(slot as int),
        ensures
            final(self).wf(),
            forall|s: int|
                0 <= s < FRAMES_IN_FLIGHT ==> final(self).spec_pending(s) == old(
                    self,
                ).spec_pending(s),
    {
    }

    /// Reset the slot's command pool wholesale. Only legal once the slot's
    /// fence has been waited on: resetting a pool whose command buffer the
    /// GPU may still read is a synchronization violation.
    pub fn reset_pool(&mut self, slot: usize)
        requires
            old(self).wf(),
            slot < FRAMES_IN_FLIGHT,
            !old(self).spec_pending(slot as int),
        ensures
            final(self).wf(),
            forall|s: int|
                0 <= s < FRAMES_IN_FLIGHT ==> final(self).spec_pending(s) == old(
                    self,
                ).spec_pending(s),
    {
    }

    /// Record this frame's commands into the slot's (freshly reset) buffer.
    pub fn record(&mut self, slot: usize)
        requires
            old(self).wf(),
            slot < FRAMES_IN_FLIGHT,
            !old(self).spec_pending(slot as int),
        ensures
            final(self).wf(),
            forall|s: int|
                0 <= s < FRAMES_IN_FLIGHT ==> final(self).spec_pending(s) == old(
                    self,
                ).spec_pending(s),
    {
    }

    /// Submit the slot's command buffer: the slot is pending from now until
    /// the next fence wait. A slot with a pending submission must never be
    /// submitted again.
    pub fn submit(&mut self, slot: usize)
        requires
            old(self).wf(),
            slot < FRAMES_IN_FLIGHT,
            !old(self).spec_pending(slot as int),
        ensures
            final(self).wf(),
            final(self).spec_pending(slot as int),
            forall|s: int|
                0 <= s < FRAMES_IN_FLIGHT && s != slot ==> final(self).spec_pending(s) == old(
                    self,
                ).spec_pending(s),
    {
        self.pending[slot] = true;
    }

    /// Present the acquired image. GPU-side ordering against the submission
    /// runs through the slot's semaphore; the CPU observes nothing.
    pub fn present(&mut self, slot: usize)
        requires
            old(self).wf(),
            slot < FRAMES_IN_FLIGHT,
        ensures
            final(self).wf(),
            forall|s: int|
                0 <= s < FRAMES_IN_FLIGHT ==> final(self).spec_pending(s) == old(
                    self,
                ).spec_pending(s),
    {
    }
}

/// Run one frame's plan against the ring's synchronization state, op by op.
/// Verifying this function checks the plan against the ring discipline: the
/// pool reset and the submission happen only on a slot whose fence has been
/// waited on. Afterwards the frame's slot is pending and no other slot
/// changed.
pub fn execute_frame_plan(ring: &mut FrameRing, plan: &Vec<FrameOp>, slot: usize)
    requires
        old(ring).wf(),
        slot < FRAMES_IN_FLIGHT,
        plan@ == spec_frame_plan(slot),
    ensures
        final(ring).wf(),
        final(ring).spec_pending(slot as int),
        forall|s: int|
            0 <= s < FRAMES_IN_FLIGHT && s != slot ==> final(ring).spec_pending(s) == old(
                ring,
            ).spec_pending(s),
{
    let n = plan.len();
    let mut k: usize = 0;
    while k < n
        invariant
            ring.wf(),
            slot < FRAMES_IN_FLIGHT,
            plan@ == spec_frame_plan(slot),
            n == plan@.len(),
            k <= n,
            forall|s: int|
                0 <= s < FRAMES_IN_FLIGHT && s != slot ==> ring.spec_pending(s) == old(
                    ring,
                ).spec_pending(s),
            ring.spec_pending(slot as int) == if k >= 5 {
                true
            } else if k >= 1 {
                false
            } else {
                old(ring).spec_pending(slot as int)
            },
        decreases n - k,
    {
        let op = plan[k];
        match op {
            FrameOp::WaitFence { slot: s } => {
                proof {
                    assert(op == spec_frame_plan(slot)[k as int]);
                    assert(k == 0);
                }
                ring.wait_fence(s);
            },
            FrameOp::ResetFence { slot: s } => {
                proof {
                    assert(op == spec_frame_plan(slot)[k as int]);
                    assert(k == 1);
                }
                ring.reset_fence(s);
            },
            FrameOp::ResetPool { slot: s } => {
                proof {
                    assert(op == spec_frame_plan(slot)[k as int]);
                    assert(k == 2);
                }
                ring.reset_pool(s);
            },
            FrameOp::RecordCommands { slot: s } => {
                proof {
                    assert(op == spec_frame_plan(slot)[k as int]);
                    assert(k == 3);
                }
                ring.record(s);
            },
            FrameOp::SubmitCommands { slot: s } => {
                proof {
                    assert(op == spec_frame_plan(slot)[k as int]);
                    assert(k == 4);
                }
                ring.submit(s);
            },
            FrameOp::PresentImage { slot: s } => {
                proof {
                    assert(op == spec_frame_plan(slot)[k as int]);
                    assert(k == 5);
                }
                ring.present(s);
            },
        }
        k += 1;
    }
}

/// The frame driver's bookkeeping: the monotonically increasing frame
/// counter, whether a frame is currently between a successful acquire and
/// its present, and whether the swapchain must be recreated before the next
/// acquire.
pub struct FrameDriver {
    pub frame_counter: u64,
    pub in_frame: bool,
    pub needs_recreate: bool,
}

impl FrameDriver {
    /// A fresh driver: counter at zero, no frame underway, swapchain assumed
    /// freshly configured.
    pub fn new() -> (d: FrameDriver)
        ensures
            d.frame_counter == 0,
            !d.in_frame,
            !d.needs_recreate,
    {
        FrameDriver { frame_counter: 0, in_frame: false, needs_recreate: false }
    }

    /// React to the acquire step's outcome. On success the frame is underway
    /// and the returned plan lists this frame's work, on the slot
    /// `frame_counter mod FRAMES_IN_FLIGHT`. On failure the frame is aborted:
    /// no plan, nothing submitted, the counter unchanged, and recreation
    /// pending before the next acquire.
    pub fn on_acquire(&mut self, outcome: AcquireOutcome) -> (plan: Option<Vec<FrameOp>>)
        requires
            !old(self).in_frame,
            !old(self).needs_recreate,
        ensures
            final(self).frame_counter == old(self).frame_counter,
            outcome == AcquireOutcome::Failed ==> {
                &&& plan is None
                &&& !final(self).in_frame
                &&& final(self).needs_recreate
            },
            outcome == AcquireOutcome::Acquired ==> {
                &&& final(self).in_frame
                &&& !final(self).needs_recreate
                &&& plan matches Some(p) && p@ == spec_frame_plan(
                    (old(self).frame_counter % (FRAMES_IN_FLIGHT as u64)) as usize,
                )
            },
    {
        match outcome {
            AcquireOutcome::Failed => {
                self.needs_recreate = true;
                None
            },
            AcquireOutcome::Acquired => {
                let slot = slot_of(self.frame_counter);
                self.in_frame = true;
                let mut plan: Vec<FrameOp> = Vec::new();
                plan.push(FrameOp::WaitFence { slot });
                plan.push(FrameOp::ResetFence { slot });
                plan.push(FrameOp::ResetPool { slot });
                plan.push(FrameOp::RecordCommands { slot });
                plan.push(FrameOp::SubmitCommands { slot });
                plan.push(FrameOp::PresentImage { slot });
                proof {
                    assert(plan@ =~= spec_frame_plan(slot));
                }
                Some(plan)
            },
        }
    }

    /// React to the present step's outcome, after the frame's work was
    /// submitted and its image handed to the presentation engine. The
    /// completed submit-present cycle advances the counter by exactly one
    /// (wrapping only at the counter's integer width). A suboptimal or failed
    /// present additionally schedules recreation before the next acquire; the
    /// submitted work itself stands.
    pub fn on_present(&mut self, outcome: PresentOutcome)
        requires
            old(self).in_frame,
        ensures
            !final(self).in_frame,
            old(self).frame_counter < u64::MAX ==> final(self).frame_counter == old(
                self,
            ).frame_counter + 1,
            old(self).frame_counter == u64::MAX ==> final(self).frame_counter == 0,
            final(self).needs_recreate == (old(self).needs_recreate || outcome
                != PresentOutcome::Presented),
    {
        self.in_frame = false;
        self.frame_counter = self.frame_counter.wrapping_add(1);
        if !matches!(outcome, PresentOutcome::Presented) {
            self.needs_recreate = true;
        }
    }

    /// The host reported a window resize: the swapchain no longer matches the
    /// drawable size, so recreation is due before the next acquire. The
    /// counter does not move; no frame was lost.
    pub fn request_recreate(&mut self)
        requires
            !old(self).in_frame,
        ensures
            final(self).frame_counter == old(self).frame_counter,
            !final(self).in_frame,
            final(self).needs_recreate,
    {
        self.needs_recreate = true;
    }

    /// React to a recreation attempt: the swapchain manager either adopted a
    /// fresh configuration or reported the transient failure, in which case
    /// recreation stays pending and is retried on the next loop iteration.
    pub fn on_recreate(&mut self, configured: bool)
        requires
            !old(self).in_frame,
        ensures
            final(self).frame_counter == old(self).frame_counter,
            !final(self).in_frame,
            final(self).needs_recreate == !configured,
    {
        self.needs_recreate = !configured;
    }
}

} // verus!
