//! The per-frame draw state machine.
//!
//! One draw walks the sequence wait-fence → acquire → reset-fence → submit
//! → present, then advances to the next frame-in-flight slot. The blocking
//! and driver calls themselves are performed by the unverified shell; the
//! shell reports each outcome back through these methods, and the machine
//! decides what happens next. A stale ("out of date") swapchain on acquire
//! or present is an expected, recoverable condition: the draw is cut short
//! or flagged, never treated as a fatal error, and the slot advances
//! regardless of the outcome.

use vstd::arithmetic::div_mod::{lemma_add_mod_noop, lemma_small_mod};
use vstd::prelude::*;

use crate::sync::{FrameSyncObjects, SlotOp};

verus! {

/// What the driver reported for an image acquisition.
#[derive(Clone, Copy, Debug, PartialEq, Eq, Structural)]
pub enum AcquireOutcome {
    /// An image is available at `image_index`; `suboptimal` notes a
    /// still-usable but no-longer-ideal swapchain, which the draw may use
    /// once but which must then be recreated before the next draw.
    Image { image_index: u32, suboptimal: bool },
    /// The swapchain is stale and must be recreated before an image can be
    /// acquired. Recoverable.
    OutOfDate,
}

/// What the driver reported for a presentation.
#[derive(Clone, Copy, Debug, PartialEq, Eq, Structural)]
pub enum PresentOutcome {
    /// The image was queued for presentation; `suboptimal` notes a
    /// still-usable but no-longer-ideal swapchain.
    Presented { suboptimal: bool },
    /// The swapchain is stale; the image was not presented. Recoverable.
    OutOfDate,
}

/// The machine's decision after an acquisition outcome.
#[derive(Clone, Copy, Debug, PartialEq, Eq, Structural)]
pub enum AcquireDecision {
    /// Continue the draw with the image at `image_index`.
    Proceed { image_index: u32 },
    /// The draw was cut short; recreate the swapchain before the next draw.
    ResizeNeeded,
}

/// Where the current draw stands.
#[derive(Clone, Copy, Debug, PartialEq, Eq, Structural)]
pub enum DrawPhase {
    /// No draw is underway.
    Idle,
    /// The slot's fence has been waited on.
    Waited,
    /// An image was acquired for this draw.
    Acquired { image_index: u32 },
    /// The slot's fence was reset; submission is next.
    Cleared { image_index: u32 },
    /// Work was submitted; presentation is next.
    Submitted { image_index: u32 },
}

/// True when the present outcome calls for a swapchain recreation.
pub open spec fn present_needs_resize(outcome: PresentOutcome) -> bool {
    match outcome {
        PresentOutcome::Presented { suboptimal } => suboptimal,
        PresentOutcome::OutOfDate => true,
    }
}

/// The draw orchestrator: the current frame-in-flight slot, the phase of
/// the draw in progress, and the synchronization slots themselves.
pub struct Frame {
    /// The per-slot fences and their protocol state.
    pub sync: FrameSyncObjects,
    /// The slot the current (or next) draw uses.
    pub current_frame: usize,
    /// Where the current draw stands.
    pub phase: DrawPhase,
    /// Ghost record of the slot used by each draw so far, in order.
    pub slot_history: Ghost<Seq<int>>,
}

impl Frame {
    /// The number of frame-in-flight slots, as a mathematical integer.
    pub open spec fn n(&self) -> int {
        self.sync.spec_max_frames_in_flight() as int
    }

    /// Well-formedness: the synchronization slots are well formed, the
    /// current slot is in range and equals the draw count modulo the slot
    /// count, the recorded slot sequence is the pure rotation 0, 1, …,
    /// N−1, 0, …, no slot but the current one sits in its reset window,
    /// and the current slot's fence state matches the draw phase.
    pub open spec fn wf(&self) -> bool {
        let cur = self.current_frame as int;
        &&& self.sync.wf()
        &&& self.current_frame < self.sync.spec_max_frames_in_flight()
        &&& cur == self.slot_history@.len() as int % self.n()
        &&& forall|i: int|
            0 <= i < self.slot_history@.len() ==> #[trigger] self.slot_history@[i] == i % self.n()
        &&& self.sync.others_not_reset(cur)
        &&& match self.phase {
            DrawPhase::Idle => !(self.sync.phase(cur) is ResetDone),
            DrawPhase::Waited => self.sync.phase(cur) is Waited,
            DrawPhase::Acquired { .. } => self.sync.phase(cur) is Waited,
            DrawPhase::Cleared { .. } => self.sync.phase(cur) is ResetDone,
            DrawPhase::Submitted { .. } => self.sync.phase(cur) is NeedsWait,
        }
    }

    /// Creates the orchestrator with `max_frames_in_flight` slots, starting
    /// at slot 0 with no draw underway.
    pub fn new(max_frames_in_flight: usize) -> (r: Self)
        requires
            max_frames_in_flight >= 1,
        ensures
            r.wf(),
            r.sync.spec_max_frames_in_flight() == max_frames_in_flight,
            r.current_frame == 0,
            r.phase is Idle,
            r.slot_history@ =~= Seq::<int>::empty(),
    {
        let sync = FrameSyncObjects::new(max_frames_in_flight);
        let r = Frame {
            sync,
            current_frame: 0,
            phase: DrawPhase::Idle,
            slot_history: Ghost(Seq::empty()),
        };
        proof {
            lemma_small_mod(0, max_frames_in_flight as nat);
        }
        r
    }

    /// The slot the current (or next) draw uses.
    pub fn current_frame(&self) -> (r: usize)
        ensures
            r == self.current_frame,
    {
        self.current_frame
    }

    /// Advances to the next slot in rotation, recording that a draw went
    /// through the current slot.
    #[verifier::rlimit(60)]
    fn advance(&mut self)
        requires
            old(self).sync.wf(),
            old(self).current_frame < old(self).sync.spec_max_frames_in_flight(),
            old(self).current_frame as int == old(self).slot_history@.len() as int % old(self).n(),
            forall|i: int|
                0 <= i < old(self).slot_history@.len() ==> #[trigger] old(self).slot_history@[i]
                    == i % old(self).n(),
            old(self).sync.others_not_reset(old(self).current_frame as int),
            !(old(self).sync.phase(old(self).current_frame as int) is ResetDone),
        ensures
            final(self).sync == old(self).sync,
            final(self).phase == old(self).phase,
            final(self).current_frame as int == (old(self).current_frame + 1) % old(self).n(),
            final(self).current_frame < final(self).sync.spec_max_frames_in_flight(),
            final(self).slot_history@ == old(self).slot_history@.push(
                old(self).current_frame as int,
            ),
            final(self).current_frame as int == final(self).slot_history@.len() as int % final(self).n(),
            forall|i: int|
                0 <= i < final(self).slot_history@.len() ==> #[trigger] final(self).slot_history@[i] == i % final(self).n(),
            final(self).sync.others_not_reset(final(self).current_frame as int),
            !(final(self).sync.phase(final(self).current_frame as int) is ResetDone),
    {
        let ghost len = self.slot_history@.len() as int;
        let ghost n = self.n();
        let next = self.sync.next_frame(self.current_frame);
        self.slot_history = Ghost(self.slot_history@.push(self.current_frame as int));
        self.current_frame = next;
        proof {
            if n == 1 {
                assert(next as int == (len + 1) % n);
            } else {
                lemma_small_mod(1, n as nat);
                lemma_add_mod_noop(len, 1, n);
                assert(next as int == (len + 1) % n);
            }
        }
    }

    /// Begins a draw: blocks on the current slot's fence, so the GPU work
    /// that last used this slot's resources is finished before they are
    /// reused. Returns the slot whose semaphores the shell must use for the
    /// rest of this draw.
    #[verifier::rlimit(60)]
    pub fn begin_draw(&mut self) -> (slot: usize)
        requires
            old(self).wf(),
            old(self).phase is Idle,
        ensures
            final(self).wf(),
            final(self).phase is Waited,
            slot == old(self).current_frame,
            final(self).current_frame == old(self).current_frame,
            final(self).slot_history@ == old(self).slot_history@,
            final(self).sync.spec_max_frames_in_flight() == old(self).sync.spec_max_frames_in_flight(),
            final(self).sync.trace(slot as int) == old(self).sync.trace(slot as int).push(
                SlotOp::Wait,
            ),
            forall|s: int|
                0 <= s < final(self).sync.spec_max_frames_in_flight() && s != slot
                    ==> #[trigger] final(self).sync.trace(s) == old(self).sync.trace(s),
    {
        let cur = self.current_frame;
        self.sync.wait_for_fence(cur);
        self.phase = DrawPhase::Waited;
        cur
    }

    /// Consumes the driver's acquisition outcome. On success the draw
    /// proceeds with the acquired image; whether a suboptimal acquisition
    /// leaves a recreation owed is the caller's book-keeping. On a stale
    /// swapchain the draw is cut short — no fence is reset, nothing is
    /// submitted — the slot advances as for any other draw, and the caller
    /// is told to recreate the swapchain.
    #[verifier::rlimit(60)]
    pub fn finish_acquire(&mut self, outcome: AcquireOutcome) -> (r: AcquireDecision)
        requires
            old(self).wf(),
            old(self).phase is Waited,
        ensures
            final(self).wf(),
            final(self).sync.spec_max_frames_in_flight() == old(self).sync.spec_max_frames_in_flight(),
            match outcome {
                AcquireOutcome::Image { image_index, .. } => {
                    &&& final(self).phase == (DrawPhase::Acquired { image_index })
                    &&& r == (AcquireDecision::Proceed { image_index })
                    &&& final(self).sync == old(self).sync
                    &&& final(self).current_frame == old(self).current_frame
                    &&& final(self).slot_history@ == old(self).slot_history@
                },
                AcquireOutcome::OutOfDate => {
                    &&& final(self).phase is Idle
                    &&& r is ResizeNeeded
                    &&& final(self).sync == old(self).sync
                    &&& final(self).current_frame as int == (old(self).current_frame + 1) % old(self).n()
                    &&& final(self).slot_history@ == old(self).slot_history@.push(
                        old(self).current_frame as int,
                    )
                },
            },
    {
        match outcome {
            AcquireOutcome::Image { image_index, suboptimal: _ } => {
                self.phase = DrawPhase::Acquired { image_index };
                AcquireDecision::Proceed { image_index }
            },
            AcquireOutcome::OutOfDate => {
                self.phase = DrawPhase::Idle;
                self.advance();
                AcquireDecision::ResizeNeeded
            },
        }
    }

    /// Resets the current slot's fence, after the acquire and before the
    /// submission, so a fence observed signaled from the previous cycle is
    /// never lost.
    #[verifier::rlimit(60)]
    pub fn reset_slot_fence(&mut self)
        requires
            old(self).wf(),
            old(self).phase is Acquired,
        ensures
            final(self).wf(),
            final(self).sync.spec_max_frames_in_flight() == old(self).sync.spec_max_frames_in_flight(),
            final(self).phase == (DrawPhase::Cleared {
                image_index: old(self).phase->Acquired_image_index,
            }),
            final(self).current_frame == old(self).current_frame,
            final(self).slot_history@ == old(self).slot_history@,
            final(self).sync.trace(old(self).current_frame as int) == old(self).sync.trace(
                old(self).current_frame as int,
            ).push(SlotOp::Reset),
            forall|s: int|
                0 <= s < final(self).sync.spec_max_frames_in_flight() && s != old(self).current_frame ==> #[trigger] final(self).sync.trace(s) == old(self).sync.trace(s),
    {
        let image_index = match self.phase {
            DrawPhase::Acquired { image_index } => image_index,
            _ => 0,  // unreachable: the phase is Acquired
        };
        let cur = self.current_frame;
        self.sync.reset_fences(cur);
        self.phase = DrawPhase::Cleared { image_index };
    }

    /// Records that the shell submitted the draw's command buffer: the
    /// submission waits on the slot's image-available semaphore at the
    /// color-attachment-output stage and signals the slot's render-finished
    /// semaphore and fence on completion.
    #[verifier::rlimit(60)]
    pub fn finish_submit(&mut self)
        requires
            old(self).wf(),
            old(self).phase is Cleared,
        ensures
            final(self).wf(),
            final(self).sync.spec_max_frames_in_flight() == old(self).sync.spec_max_frames_in_flight(),
            final(self).phase == (DrawPhase::Submitted {
                image_index: old(self).phase->Cleared_image_index,
            }),
            final(self).current_frame == old(self).current_frame,
            final(self).slot_history@ == old(self).slot_history@,
            final(self).sync.trace(old(self).current_frame as int) == old(self).sync.trace(
                old(self).current_frame as int,
            ).push(SlotOp::Submit),
            forall|s: int|
                0 <= s < final(self).sync.spec_max_frames_in_flight() && s != old(self).current_frame ==> #[trigger] final(self).sync.trace(s) == old(self).sync.trace(s),
    {
        let image_index = match self.phase {
            DrawPhase::Cleared { image_index } => image_index,
            _ => 0,  // unreachable: the phase is Cleared
        };
        let cur = self.current_frame;
        self.sync.submit(cur);
        self.phase = DrawPhase::Submitted { image_index };
    }

    /// Consumes the driver's presentation outcome and advances to the next
    /// slot. Returns whether the swapchain must be recreated before the
    /// next draw; a stale or suboptimal swapchain at presentation is
    /// recoverable, never a fatal error.
    #[verifier::rlimit(60)]
    pub fn finish_present(&mut self, outcome: PresentOutcome) -> (resize_needed: bool)
        requires
            old(self).wf(),
            old(self).phase is Submitted,
        ensures
            final(self).wf(),
            final(self).sync.spec_max_frames_in_flight() == old(self).sync.spec_max_frames_in_flight(),
            final(self).phase is Idle,
            final(self).sync == old(self).sync,
            final(self).current_frame as int == (old(self).current_frame + 1) % old(self).n(),
            final(self).slot_history@ == old(self).slot_history@.push(
                old(self).current_frame as int,
            ),
            resize_needed == present_needs_resize(outcome),
    {
        self.phase = DrawPhase::Idle;
        self.advance();
        match outcome {
            PresentOutcome::Presented { suboptimal } => suboptimal,
            PresentOutcome::OutOfDate => true,
        }
    }
}

/// Frame-slot rotation: for any number of slots N ≥ 1 and any number of
/// draws, the slots used by successive draws form the pure modulo-N
/// sequence 0, 1, …, N−1, 0, 1, …, whatever each draw's outcome was.
pub proof fn lemma_slot_rotation(frame: &Frame, i: int)
    requires
        frame.wf(),
        0 <= i < frame.slot_history@.len(),
    ensures
        frame.slot_history@[i] == i % frame.n(),
{
}

} // verus!
