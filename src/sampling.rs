use vstd::prelude::*;
use crate::session::CaptureSession;

verus! {

/// What became of the frame of one loop iteration.
#[derive(Debug, Clone, Copy, PartialEq, Eq, Structural)]
pub enum TickOutcome {
    /// The frame source gave no frame.
    CaptureFailed,
    /// A frame was captured but could not be encoded.
    EncodeFailed,
    /// The frame was encoded but the sink refused it.
    DeliveryFailed,
    /// The frame reached the sink.
    Delivered,
}

/// Bookkeeping of one running sampling loop: the session it belongs to, the
/// display it samples, and how many iterations ran and frames went out.
#[derive(Debug, Clone, Copy, PartialEq, Eq, Structural)]
pub struct SamplingLoop {
    pub token: u64,
    pub monitor_index: usize,
    pub ticks: u64,
    pub delivered: u64,
}

/// Capture positions (iteration numbers) of the delivered frames among
/// `outcomes`, in the order they were delivered.
pub open spec fn delivered_positions(outcomes: Seq<TickOutcome>) -> Seq<int>
    decreases outcomes.len(),
{
    if outcomes.len() == 0 {
        Seq::empty()
    } else {
        let earlier = delivered_positions(outcomes.drop_last());
        if outcomes.last() == TickOutcome::Delivered {
            earlier.push(outcomes.len() - 1)
        } else {
            earlier
        }
    }
}

/// The loop state after recording `outcomes` one by one from `s`.
pub open spec fn after_ticks(s: SamplingLoop, outcomes: Seq<TickOutcome>) -> SamplingLoop
    decreases outcomes.len(),
{
    if outcomes.len() == 0 {
        s
    } else {
        after_ticks(s, outcomes.drop_last()).recorded(outcomes.last())
    }
}

impl SamplingLoop {
    /// The state after recording one iteration's outcome.
    pub open spec fn recorded(self, outcome: TickOutcome) -> SamplingLoop {
        SamplingLoop {
            ticks: (self.ticks + 1) as u64,
            delivered: if outcome == TickOutcome::Delivered {
                (self.delivered + 1) as u64
            } else {
                self.delivered
            },
            ..self
        }
    }

    /// A loop for the session `token`, sampling the display at `monitor_index`.
    pub fn begin(token: u64, monitor_index: usize) -> (r: SamplingLoop)
        ensures
            r.token == token,
            r.monitor_index == monitor_index,
            r.ticks == 0,
            r.delivered == 0,
    {
        SamplingLoop { token, monitor_index, ticks: 0, delivered: 0 }
    }

    /// Checked at each iteration boundary: whether another iteration runs.
    /// Only the session decides; what happened to earlier frames does not.
    pub fn keeps_going(&self, session: &CaptureSession) -> (r: bool)
        ensures
            r == session.live(self.token),
    {
        session.keeps_running(self.token)
    }

    /// Records the outcome of the iteration that just ran and returns its
    /// capture position. A failed iteration is counted and the loop goes on.
    pub fn record(&mut self, outcome: TickOutcome) -> (r: u64)
        requires
            old(self).ticks < u64::MAX,
            old(self).delivered <= old(self).ticks,
        ensures
            r == old(self).ticks,
            *final(self) == old(self).recorded(outcome),
            final(self).delivered <= final(self).ticks,
    {
        let position = self.ticks;
        self.ticks = self.ticks + 1;
        if outcome == TickOutcome::Delivered {
            self.delivered = self.delivered + 1;
        }
        position
    }
}

/// Frames go out in the order they were captured: the capture positions of
/// delivered frames strictly increase, each names an iteration that ran, and
/// the loop's counters agree with them.
pub proof fn lemma_delivery_in_capture_order(s: SamplingLoop, outcomes: Seq<TickOutcome>)
    requires
        s.ticks == 0,
        s.delivered == 0,
        outcomes.len() < u64::MAX,
    ensures
        forall|i: int, j: int|
            0 <= i < j < delivered_positions(outcomes).len() ==> delivered_positions(outcomes)[i]
                < delivered_positions(outcomes)[j],
        forall|i: int|
            0 <= i < delivered_positions(outcomes).len() ==> 0 <= #[trigger] delivered_positions(
                outcomes,
            )[i] < outcomes.len() && outcomes[delivered_positions(outcomes)[i]]
                == TickOutcome::Delivered,
        after_ticks(s, outcomes).ticks == outcomes.len(),
        after_ticks(s, outcomes).delivered == delivered_positions(outcomes).len(),
        after_ticks(s, outcomes).token == s.token,
    decreases outcomes.len(),
{
    if outcomes.len() > 0 {
        let rest = outcomes.drop_last();
        lemma_delivery_in_capture_order(s, rest);
        lemma_positions_bounded(rest);
        assert(forall|i: int| 0 <= i < rest.len() ==> rest[i] == outcomes[i]);
    }
}

/// Every delivered position lies below the number of iterations, and there
/// are no more of them than iterations.
pub proof fn lemma_positions_bounded(outcomes: Seq<TickOutcome>)
    ensures
        delivered_positions(outcomes).len() <= outcomes.len(),
        forall|i: int|
            0 <= i < delivered_positions(outcomes).len() ==> 0 <= #[trigger] delivered_positions(
                outcomes,
            )[i] < outcomes.len(),
    decreases outcomes.len(),
{
    if outcomes.len() > 0 {
        lemma_positions_bounded(outcomes.drop_last());
    }
}

/// A failed iteration does not end the loop: after a capture (or encode, or
/// delivery) failure on iteration `k`, iteration `k + 1` runs whenever the
/// session is still live, exactly as after a delivered frame.
pub proof fn lemma_failure_keeps_loop(s: SamplingLoop, outcome: TickOutcome, session: CaptureSession)
    requires
        s.ticks < u64::MAX,
        session.live(s.token),
    ensures
        s.recorded(outcome).ticks == s.ticks + 1,
        s.recorded(outcome).token == s.token,
        session.live(s.recorded(outcome).token),
{
}

} // verus!
