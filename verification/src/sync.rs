//! Per-slot frame synchronization: the rotating frame-in-flight slots and
//! the wait / reset / submit discipline of each slot's fence.
//!
//! Each slot owns one fence (and, in the unverified shell, one
//! image-available and one render-finished semaphore). The model tracks the
//! protocol state of every fence together with a ghost trace of the
//! operations performed on it, so that the fence discipline can be stated
//! and proved of every reachable state.

use vstd::prelude::*;

verus! {

/// An operation performed on one slot's fence.
#[derive(Clone, Copy, Debug, PartialEq, Eq, Structural)]
pub enum SlotOp {
    /// The CPU blocked until the fence signaled.
    Wait,
    /// The fence was reset to the unsignaled state.
    Reset,
    /// Work was submitted that signals the fence on completion.
    Submit,
}

/// The protocol state of one slot's fence, as seen by the CPU.
#[derive(Clone, Copy, Debug, PartialEq, Eq, Structural)]
pub enum SlotPhase {
    /// The fence must be waited on before it may be reset: either it was
    /// created signaled and never touched, or a submission is (possibly)
    /// still in flight.
    NeedsWait,
    /// The fence is known signaled; a reset may follow.
    Waited,
    /// The fence was reset and not yet resubmitted. Waiting now would
    /// deadlock; the only permitted next operation is a submission.
    ResetDone,
}

/// The fence discipline over one slot's operation trace: a reset is always
/// immediately preceded by a wait, and a submission is always immediately
/// preceded by a reset. Hence every submission into a slot is preceded by
/// one wait and one reset of that slot's fence in the same cycle.
pub open spec fn slot_trace_disciplined(tr: Seq<SlotOp>) -> bool {
    forall|i: int| 0 <= i < tr.len() ==> {
        &&& (#[trigger] tr[i] is Reset ==> i > 0 && tr[i - 1] is Wait)
        &&& (tr[i] is Submit ==> i > 0 && tr[i - 1] is Reset)
    }
}

/// The fence protocol state implied by a slot's operation trace.
pub open spec fn phase_of_trace(tr: Seq<SlotOp>) -> SlotPhase {
    if tr.len() == 0 {
        SlotPhase::NeedsWait
    } else {
        match tr.last() {
            SlotOp::Wait => SlotPhase::Waited,
            SlotOp::Reset => SlotPhase::ResetDone,
            SlotOp::Submit => SlotPhase::NeedsWait,
        }
    }
}

/// Appending an operation whose protocol precondition holds keeps a slot
/// trace disciplined.
proof fn lemma_disciplined_push(tr: Seq<SlotOp>, op: SlotOp)
    requires
        slot_trace_disciplined(tr),
        op is Reset ==> phase_of_trace(tr) is Waited,
        op is Submit ==> phase_of_trace(tr) is ResetDone,
    ensures
        slot_trace_disciplined(tr.push(op)),
{
    let tr2 = tr.push(op);
    assert forall|i: int| 0 <= i < tr2.len() implies {
        &&& (#[trigger] tr2[i] is Reset ==> i > 0 && tr2[i - 1] is Wait)
        &&& (tr2[i] is Submit ==> i > 0 && tr2[i - 1] is Reset)
    } by {
        if i < tr.len() {
            assert(tr2[i] == tr[i]);
            if 0 < i {
                assert(tr2[i - 1] == tr[i - 1]);
            }
        } else {
            assert(tr2[i] == op);
            if op is Reset {
                assert(tr.last() is Wait);
                assert(tr2[i - 1] == tr[i - 1]);
            }
            if op is Submit {
                assert(tr.last() is Reset);
                assert(tr2[i - 1] == tr[i - 1]);
            }
        }
    }
}

/// The rotating set of frame-in-flight synchronization slots.
pub struct FrameSyncObjects {
    /// The number of slots, fixed at creation.
    pub max_frames_in_flight: usize,
    /// The protocol state of each slot's fence.
    pub slots: Vec<SlotPhase>,
    /// Ghost trace of the fence operations performed on each slot.
    pub hist: Ghost<Seq<Seq<SlotOp>>>,
}

impl FrameSyncObjects {
    /// The number of frame-in-flight slots.
    pub open spec fn spec_max_frames_in_flight(&self) -> usize {
        self.max_frames_in_flight
    }

    /// The protocol state of slot `s`.
    pub open spec fn phase(&self, s: int) -> SlotPhase {
        self.slots@[s]
    }

    /// The ghost trace of fence operations performed on slot `s`.
    pub open spec fn trace(&self, s: int) -> Seq<SlotOp> {
        self.hist@[s]
    }

    /// Well-formedness: one phase and one trace per slot, every trace
    /// disciplined, and every phase the one its trace implies.
    pub open spec fn wf(&self) -> bool {
        &&& self.max_frames_in_flight >= 1
        &&& self.slots@.len() == self.max_frames_in_flight
        &&& self.hist@.len() == self.max_frames_in_flight
        &&& forall|s: int|
            0 <= s < self.max_frames_in_flight ==> slot_trace_disciplined(#[trigger] self.trace(s))
        &&& forall|s: int|
            0 <= s < self.max_frames_in_flight ==> #[trigger] self.phase(s) == phase_of_trace(
                self.trace(s),
            )
    }

    /// True when every slot other than `frame` is outside its reset window,
    /// i.e. no fence but possibly `frame`'s is sitting unsignaled without a
    /// pending submission.
    pub open spec fn others_not_reset(&self, frame: int) -> bool {
        forall|s: int|
            0 <= s < self.max_frames_in_flight && s != frame ==> !(#[trigger] self.phase(
                s,
            ) is ResetDone)
    }

    /// Creates `max_frames_in_flight` slots. Each fence starts in the
    /// signaled state (so the first wait on it returns immediately), which
    /// the protocol models as `NeedsWait` with an empty trace.
    pub fn new(max_frames_in_flight: usize) -> (r: Self)
        requires
            max_frames_in_flight >= 1,
        ensures
            r.wf(),
            r.spec_max_frames_in_flight() == max_frames_in_flight,
            forall|s: int| 0 <= s < max_frames_in_flight ==> #[trigger] r.trace(s) =~= Seq::empty(),
            forall|s: int| 0 <= s < max_frames_in_flight ==> #[trigger] r.phase(s) is NeedsWait,
    {
        let mut slots: Vec<SlotPhase> = Vec::new();
        let mut i: usize = 0;
        while i < max_frames_in_flight
            invariant
                0 <= i <= max_frames_in_flight,
                slots@.len() == i,
                forall|s: int| 0 <= s < i ==> slots@[s] is NeedsWait,
            decreases max_frames_in_flight - i,
        {
            slots.push(SlotPhase::NeedsWait);
            i = i + 1;
        }
        let ghost hist = Seq::new(max_frames_in_flight as nat, |s: int| Seq::<SlotOp>::empty());
        FrameSyncObjects { max_frames_in_flight, slots, hist: Ghost(hist) }
    }

    /// Blocks until slot `frame`'s fence signals. Forbidden while the fence
    /// sits reset without a pending submission, since that wait could never
    /// return.
    #[verifier::rlimit(50)]
    pub fn wait_for_fence(&mut self, frame: usize)
        requires
            old(self).wf(),
            frame < old(self).spec_max_frames_in_flight(),
            !(old(self).phase(frame as int) is ResetDone),
        ensures
            final(self).wf(),
            final(self).spec_max_frames_in_flight() == old(self).spec_max_frames_in_flight(),
            final(self).phase(frame as int) is Waited,
            final(self).trace(frame as int) == old(self).trace(frame as int).push(SlotOp::Wait),
            forall|s: int|
                0 <= s < final(self).spec_max_frames_in_flight() && s != frame ==> #[trigger] final(self).trace(s)
                    == old(self).trace(s) && final(self).phase(s) == old(self).phase(s),
    {
        self.slots[frame] = SlotPhase::Waited;
        let ghost tr = self.hist@[frame as int].push(SlotOp::Wait);
        self.hist = Ghost(self.hist@.update(frame as int, tr));
        proof {
            lemma_disciplined_push(old(self).trace(frame as int), SlotOp::Wait);
            assert forall|s: int|
                0 <= s < self.max_frames_in_flight implies slot_trace_disciplined(
                #[trigger] self.trace(s),
            ) by {
                if s != frame {
                    assert(self.trace(s) == old(self).trace(s));
                }
            }
            assert forall|s: int|
                0 <= s < self.max_frames_in_flight implies #[trigger] self.phase(s)
                == phase_of_trace(self.trace(s)) by {
                if s == frame {
                    assert(self.trace(s).last() == SlotOp::Wait);
                } else {
                    assert(self.trace(s) == old(self).trace(s));
                    assert(self.phase(s) == old(self).phase(s));
                }
            }
        }
    }

    /// Resets slot `frame`'s fence to the unsignaled state. Only permitted
    /// directly after a wait, so a still-signaled-from-last-cycle fence is
    /// never destroyed early.
    #[verifier::rlimit(50)]
    pub fn reset_fences(&mut self, frame: usize)
        requires
            old(self).wf(),
            frame < old(self).spec_max_frames_in_flight(),
            old(self).phase(frame as int) is Waited,
        ensures
            final(self).wf(),
            final(self).spec_max_frames_in_flight() == old(self).spec_max_frames_in_flight(),
            final(self).phase(frame as int) is ResetDone,
            final(self).trace(frame as int) == old(self).trace(frame as int).push(SlotOp::Reset),
            forall|s: int|
                0 <= s < final(self).spec_max_frames_in_flight() && s != frame ==> #[trigger] final(self).trace(s)
                    == old(self).trace(s) && final(self).phase(s) == old(self).phase(s),
    {
        self.slots[frame] = SlotPhase::ResetDone;
        let ghost tr = self.hist@[frame as int].push(SlotOp::Reset);
        self.hist = Ghost(self.hist@.update(frame as int, tr));
        proof {
            lemma_disciplined_push(old(self).trace(frame as int), SlotOp::Reset);
            assert forall|s: int|
                0 <= s < self.max_frames_in_flight implies slot_trace_disciplined(
                #[trigger] self.trace(s),
            ) by {
                if s != frame {
                    assert(self.trace(s) == old(self).trace(s));
                }
            }
            assert forall|s: int|
                0 <= s < self.max_frames_in_flight implies #[trigger] self.phase(s)
                == phase_of_trace(self.trace(s)) by {
                if s == frame {
                    assert(self.trace(s).last() == SlotOp::Reset);
                } else {
                    assert(self.trace(s) == old(self).trace(s));
                    assert(self.phase(s) == old(self).phase(s));
                }
            }
        }
    }

    /// Records a submission into slot `frame` whose completion will signal
    /// the slot's fence. Only permitted directly after a reset.
    #[verifier::rlimit(50)]
    pub fn submit(&mut self, frame: usize)
        requires
            old(self).wf(),
            frame < old(self).spec_max_frames_in_flight(),
            old(self).phase(frame as int) is ResetDone,
        ensures
            final(self).wf(),
            final(self).spec_max_frames_in_flight() == old(self).spec_max_frames_in_flight(),
            final(self).phase(frame as int) is NeedsWait,
            final(self).trace(frame as int) == old(self).trace(frame as int).push(SlotOp::Submit),
            forall|s: int|
                0 <= s < final(self).spec_max_frames_in_flight() && s != frame ==> #[trigger] final(self).trace(s)
                    == old(self).trace(s) && final(self).phase(s) == old(self).phase(s),
    {
        self.slots[frame] = SlotPhase::NeedsWait;
        let ghost tr = self.hist@[frame as int].push(SlotOp::Submit);
        self.hist = Ghost(self.hist@.update(frame as int, tr));
        proof {
            lemma_disciplined_push(old(self).trace(frame as int), SlotOp::Submit);
            assert forall|s: int|
                0 <= s < self.max_frames_in_flight implies slot_trace_disciplined(
                #[trigger] self.trace(s),
            ) by {
                if s != frame {
                    assert(self.trace(s) == old(self).trace(s));
                }
            }
            assert forall|s: int|
                0 <= s < self.max_frames_in_flight implies #[trigger] self.phase(s)
                == phase_of_trace(self.trace(s)) by {
                if s == frame {
                    assert(self.trace(s).last() == SlotOp::Submit);
                } else {
                    assert(self.trace(s) == old(self).trace(s));
                    assert(self.phase(s) == old(self).phase(s));
                }
            }
        }
    }

    /// The next slot in rotation: a pure modulo-`N` counter.
    pub fn next_frame(&self, frame: usize) -> (r: usize)
        requires
            self.spec_max_frames_in_flight() >= 1,
            frame < self.spec_max_frames_in_flight(),
        ensures
            r == (frame + 1) % (self.spec_max_frames_in_flight() as int),
            r < self.spec_max_frames_in_flight(),
    {
        (frame + 1) % self.max_frames_in_flight
    }

    /// The number of frame-in-flight slots.
    pub fn max_frames_in_flight(&self) -> (r: usize)
        ensures
            r == self.spec_max_frames_in_flight(),
    {
        self.max_frames_in_flight
    }
}

/// Fence discipline: in every reachable synchronization state, every slot's
/// operation trace is disciplined — each reset of a fence is immediately
/// preceded by a wait on it, and each submission is immediately preceded by
/// a reset, so no submission happens without a wait and a reset of the
/// slot's fence in the same cycle.
pub proof fn lemma_fence_discipline(sync: &FrameSyncObjects, s: int)
    requires
        sync.wf(),
        0 <= s < sync.spec_max_frames_in_flight(),
    ensures
        slot_trace_disciplined(sync.trace(s)),
{
}

} // verus!
