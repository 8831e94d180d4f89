use vstd::prelude::*;

verus! {

/// What became of one attempt to hand a snapshot to the consumer.
#[derive(Debug, Clone, Copy, PartialEq, Eq, Structural)]
pub enum SendOutcome {
    /// The consumer's end took the snapshot.
    Delivered,
    /// The consumer's end is gone for good.
    Closed,
}

/// What the simulation loop does next.
#[derive(Debug, Clone, Copy, PartialEq, Eq, Structural)]
pub enum LoopAction {
    /// Simulate one more tick and send its snapshot.
    Tick,
    /// Stop simulating.
    Stop,
}

/// The producer side of the snapshot stream: it counts delivered snapshots
/// and stops for good at the first send that finds the consumer gone.
#[derive(Debug, Clone, Copy, PartialEq, Eq, Structural)]
pub struct Producer {
    pub delivered: u64,
    pub stopped: bool,
}

/// Whether a producer that starts in state `stopped` has stopped after the
/// given outcomes.
pub open spec fn stopped_after(stopped: bool, outcomes: Seq<SendOutcome>) -> bool
    decreases outcomes.len(),
{
    if outcomes.len() == 0 {
        stopped
    } else {
        stopped_after(
            stopped || outcomes[0] == SendOutcome::Closed,
            outcomes.subrange(1, outcomes.len() as int),
        )
    }
}

impl Producer {
    /// A producer that has sent nothing and is running.
    pub fn new() -> (r: Producer)
        ensures
            r.delivered == 0,
            !r.stopped,
    {
        Producer { delivered: 0, stopped: false }
    }

    /// What the loop does next: tick while running, stop once stopped.
    pub fn next_action(&self) -> (a: LoopAction)
        ensures
            a == (if self.stopped { LoopAction::Stop } else { LoopAction::Tick }),
    {
        if self.stopped {
            LoopAction::Stop
        } else {
            LoopAction::Tick
        }
    }

    /// Takes the outcome of a send. A closed consumer stops the producer,
    /// and a stopped producer stays stopped; a delivery while running is
    /// counted (the count saturates at `u64::MAX`). Returns what the loop
    /// does next.
    pub fn on_send(&mut self, outcome: SendOutcome) -> (a: LoopAction)
        ensures
            final(self).stopped == (old(self).stopped || outcome == SendOutcome::Closed),
            final(self).delivered == (if !old(self).stopped && outcome == SendOutcome::Delivered {
                if old(self).delivered < u64::MAX {
                    (old(self).delivered + 1) as u64
                } else {
                    old(self).delivered
                }
            } else {
                old(self).delivered
            }),
            a == (if final(self).stopped { LoopAction::Stop } else { LoopAction::Tick }),
    {
        match outcome {
            SendOutcome::Closed => {
                self.stopped = true;
            },
            SendOutcome::Delivered => {
                if !self.stopped && self.delivered < u64::MAX {
                    self.delivered = self.delivered + 1;
                }
            },
        }
        self.next_action()
    }
}

/// Once a send has found the consumer gone, the producer is stopped whatever
/// outcomes follow, so the loop produces no further tick.
pub proof fn lemma_closed_stops_for_good(stopped: bool, outcomes: Seq<SendOutcome>, k: int)
    requires
        0 <= k < outcomes.len(),
        outcomes[k] == SendOutcome::Closed,
    ensures
        stopped_after(stopped, outcomes),
    decreases outcomes.len(),
{
    let rest = outcomes.subrange(1, outcomes.len() as int);
    if k == 0 {
        lemma_stopped_stays(true, rest);
    } else {
        assert(rest[k - 1] == outcomes[k]);
        lemma_closed_stops_for_good(stopped || outcomes[0] == SendOutcome::Closed, rest, k - 1);
    }
}

/// A stopped producer stays stopped.
pub proof fn lemma_stopped_stays(stopped: bool, outcomes: Seq<SendOutcome>)
    requires
        stopped,
    ensures
        stopped_after(stopped, outcomes),
    decreases outcomes.len(),
{
    if outcomes.len() > 0 {
        lemma_stopped_stays(true, outcomes.subrange(1, outcomes.len() as int));
    }
}

} // verus!
