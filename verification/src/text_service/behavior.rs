//! Requests that the host makes through the candidate list (a click, a touch), and the barrier that
//! puts them off while the text service is in the middle of something.

use vstd::prelude::*;

verus! {

/// How many rounds of put off requests one flush carries out.
pub const FLUSH_ROUNDS: u32 = 8;

/// Puts requests off while an operation is under way.
#[derive(Clone, Copy, Debug, PartialEq, Eq, Structural)]
pub struct ReentrancyGate {
    pub in_operation: bool,
    pub pending: bool,
}

impl ReentrancyGate {
    /// The state inside an operation.
    pub open spec fn entered(self) -> ReentrancyGate {
        ReentrancyGate { in_operation: true, ..self }
    }

    /// The state after an operation that began with `prev`.
    pub open spec fn left(self, prev: bool) -> ReentrancyGate {
        ReentrancyGate { in_operation: prev, ..self }
    }

    /// The state after a call of the host.
    pub open spec fn signalled(self, has_action: bool) -> ReentrancyGate {
        ReentrancyGate { pending: self.pending || (self.in_operation && has_action), ..self }
    }

    /// No operation under way and nothing put off.
    pub fn new() -> (r: Self)
        ensures
            !r.in_operation,
            !r.pending,
    {
        ReentrancyGate { in_operation: false, pending: false }
    }

    /// Whether an operation is under way.
    pub fn in_operation(&self) -> (r: bool)
        ensures
            r == self.in_operation,
    {
        self.in_operation
    }

    /// An operation begins. The result goes to [`ReentrancyGate::exit`].
    pub fn enter(&mut self) -> (r: bool)
        ensures
            r == old(self).in_operation,
            *final(self) == old(self).entered(),
    {
        let prev = self.in_operation;
        self.in_operation = true;
        prev
    }

    /// The operation ends; calls are let in again if it was the outermost one.
    pub fn exit(&mut self, prev: bool)
        ensures
            *final(self) == old(self).left(prev),
    {
        self.in_operation = prev;
    }

    /// The host calls in. `true` puts the call off; a request is then remembered.
    pub fn signal_reentry(&mut self, has_action: bool) -> (r: bool)
        ensures
            r == old(self).in_operation,
            *final(self) == old(self).signalled(has_action),
    {
        if self.in_operation {
            if has_action {
                self.pending = true;
            }
            true
        } else {
            false
        }
    }

    /// Takes the mark of a put off request.
    pub fn take_pending(&mut self) -> (r: bool)
        ensures
            r == old(self).pending,
            *final(self) == (ReentrancyGate { pending: false, ..*old(self) }),
    {
        let was = self.pending;
        self.pending = false;
        was
    }

    /// Whether a request was put off.
    pub fn has_pending(&self) -> (r: bool)
        ensures
            r == self.pending,
    {
        self.pending
    }
}

/// An operation inside another one, with a call of the host in its middle, leaves the outer one
/// under way and loses no request; the end of the outermost operation lets calls in again.
pub proof fn an_inner_operation_restores_the_outer_one(g: ReentrancyGate, has_action: bool)
    ensures
        ({
            let inner = g.entered().signalled(has_action).left(g.in_operation);
            inner.in_operation == g.in_operation && inner.pending == (g.pending || has_action)
        }),
        ({
            let nested = g.entered().entered().left(true);
            nested.in_operation && !nested.left(false).in_operation
        }),
{
}

/// What the host asked for.
#[derive(Clone, Copy, Debug, PartialEq, Eq, Structural)]
pub enum BehaviorAction {
    Finalize,
    Abort,
}

/// What to do when the host calls in.
#[derive(Clone, Copy, Debug, PartialEq, Eq, Structural)]
pub enum DrainStart {
    /// Later.
    PutOff,
    /// Now.
    Run,
}

/// What the timer of put off requests needs.
#[derive(Clone, Copy, Debug, PartialEq, Eq, Structural)]
pub enum FlushRound {
    /// Nothing is left.
    Stop,
    /// Carry out the requests and look again.
    Drain,
    /// Carry out the requests and leave the rest for later.
    DrainLast,
}

/// What carrying out a request comes to.
#[derive(Clone, Copy, Debug, PartialEq, Eq, Structural)]
pub enum BehaviorPlan {
    Nothing,
    CommitClauses,
    CommitCandidate { index: usize },
    CancelReconvert,
    /// Close the candidates and show the live conversion again.
    CloseCandidates,
    /// Cancel the composition and everything that was typed for it.
    CancelComposition,
}

/// What a request depends on.
#[derive(Clone, Copy, Debug, PartialEq, Eq, Structural)]
pub struct BehaviorFacts {
    pub showing: bool,
    pub clause_nav: bool,
    /// The selected candidate.
    pub pick: Option<usize>,
    pub reconverting: bool,
    pub composing: bool,
}

/// What carrying out a request comes to. A candidate is committed only while candidates are
/// shown: a request that was put off may arrive after the user closed them.
pub open spec fn plan_of(action: BehaviorAction, f: BehaviorFacts) -> BehaviorPlan {
    match action {
        BehaviorAction::Finalize => if !f.showing {
            BehaviorPlan::Nothing
        } else if f.clause_nav {
            BehaviorPlan::CommitClauses
        } else {
            match f.pick {
                Some(index) => BehaviorPlan::CommitCandidate { index },
                None => BehaviorPlan::Nothing,
            }
        },
        BehaviorAction::Abort => if f.reconverting {
            BehaviorPlan::CancelReconvert
        } else if f.showing {
            BehaviorPlan::CloseCandidates
        } else if f.composing {
            BehaviorPlan::CancelComposition
        } else {
            BehaviorPlan::Nothing
        },
    }
}

/// What carrying out a request comes to.
pub fn behavior_plan(action: BehaviorAction, f: BehaviorFacts) -> (r: BehaviorPlan)
    ensures
        r == plan_of(action, f),
{
    match action {
        BehaviorAction::Finalize => {
            if !f.showing {
                return BehaviorPlan::Nothing;
            }
            if f.clause_nav {
                return BehaviorPlan::CommitClauses;
            }
            match f.pick {
                Some(index) => BehaviorPlan::CommitCandidate { index },
                None => BehaviorPlan::Nothing,
            }
        },
        BehaviorAction::Abort => {
            if f.reconverting {
                BehaviorPlan::CancelReconvert
            } else if f.showing {
                BehaviorPlan::CloseCandidates
            } else if f.composing {
                BehaviorPlan::CancelComposition
            } else {
                BehaviorPlan::Nothing
            }
        },
    }
}

/// What was taken from the queue, in the order of carrying it out.
#[derive(Clone, Copy, Debug, PartialEq, Eq, Structural)]
pub struct DrainedRequests {
    /// Where to carry the requests out.
    pub context: usize,
    /// First bring the shown text in line with the selection.
    pub sync_selection: bool,
    /// Then carry this out.
    pub action: Option<BehaviorAction>,
}

/// The host's requests.
#[derive(Clone, Copy, Debug, PartialEq, Eq, Structural)]
pub struct BehaviorQueue {
    pub behavior_outbox: Option<BehaviorAction>,
    pub selection_dirty: bool,
    pub reentrancy: ReentrancyGate,
    pub behavior_flush_timer: usize,
}

impl BehaviorQueue {
    /// The queue without requests.
    pub open spec fn initial() -> BehaviorQueue {
        BehaviorQueue {
            behavior_outbox: None,
            selection_dirty: false,
            reentrancy: ReentrancyGate { in_operation: false, pending: false },
            behavior_flush_timer: 0,
        }
    }

    /// There is something to carry out.
    pub open spec fn has_request(self) -> bool {
        self.behavior_outbox is Some || self.selection_dirty
    }

    /// The queue after a call of the host.
    pub open spec fn called(self) -> BehaviorQueue {
        BehaviorQueue { reentrancy: self.reentrancy.signalled(self.has_request()), ..self }
    }

    /// A queue without requests.
    pub fn new() -> (r: Self)
        ensures
            r == BehaviorQueue::initial(),
    {
        BehaviorQueue {
            behavior_outbox: None,
            selection_dirty: false,
            reentrancy: ReentrancyGate::new(),
            behavior_flush_timer: 0,
        }
    }

    /// The host calls in: requests are put off while an operation is under way.
    pub fn drain_behavior(&mut self) -> (r: DrainStart)
        ensures
            r == (if old(self).reentrancy.in_operation {
                DrainStart::PutOff
            } else {
                DrainStart::Run
            }),
            *final(self) == old(self).called(),
    {
        let has_request = self.behavior_outbox.is_some() || self.selection_dirty;
        if self.reentrancy.signal_reentry(has_request) {
            DrainStart::PutOff
        } else {
            DrainStart::Run
        }
    }

    /// Takes the requests, before anything is done about them. Without a context to carry them out
    /// in they are dropped.
    pub fn drain_behavior_inner(&mut self, current_context: Option<usize>) -> (r: Option<
        DrainedRequests,
    >)
        ensures
            r == (match current_context {
                Some(context) if old(self).has_request() => Some(
                    DrainedRequests {
                        context,
                        sync_selection: old(self).selection_dirty,
                        action: old(self).behavior_outbox,
                    },
                ),
                _ => None,
            }),
            *final(self) == (BehaviorQueue {
                behavior_outbox: None,
                selection_dirty: false,
                ..*old(self)
            }),
    {
        let action = self.behavior_outbox.take();
        let sync_selection = self.selection_dirty;
        self.selection_dirty = false;
        if action.is_none() && !sync_selection {
            return None;
        }
        match current_context {
            Some(context) => Some(DrainedRequests { context, sync_selection, action }),
            None => None,
        }
    }

    /// The end of an operation. `true` asks for the flush timer: only the outermost operation
    /// does, and only if something was put off and no timer runs.
    pub fn leave(&mut self, prev: bool) -> (r: bool)
        ensures
            r == (!prev && old(self).reentrancy.pending && old(self).behavior_flush_timer == 0),
            *final(self) == (BehaviorQueue {
                reentrancy: ReentrancyGate { in_operation: prev, ..old(self).reentrancy },
                ..*old(self)
            }),
    {
        self.reentrancy.exit(prev);
        !prev && self.schedule_behavior_flush()
    }

    /// Whether the flush timer is to be set.
    pub fn schedule_behavior_flush(&self) -> (r: bool)
        ensures
            r == (self.reentrancy.pending && self.behavior_flush_timer == 0),
    {
        self.behavior_flush_timer == 0 && self.reentrancy.has_pending()
    }

    /// The timer was set; 0 if it could not be.
    pub fn flush_timer_set(&mut self, id: usize)
        ensures
            *final(self) == (BehaviorQueue { behavior_flush_timer: id, ..*old(self) }),
    {
        self.behavior_flush_timer = id;
    }

    /// A timer fired. `true` if it was the flush timer and the requests may be carried out now;
    /// in the middle of an operation they stay put off.
    pub fn flush_timer_fired(&mut self, id: usize) -> (r: bool)
        ensures
            r == (old(self).behavior_flush_timer == id && !old(self).reentrancy.in_operation),
            *final(self) == (if old(self).behavior_flush_timer == id {
                BehaviorQueue { behavior_flush_timer: 0, ..*old(self) }
            } else {
                *old(self)
            }),
    {
        if self.behavior_flush_timer != id {
            return false;
        }
        self.behavior_flush_timer = 0;
        !self.reentrancy.in_operation()
    }

    /// One round of a flush; `rounds` have been carried out. A host that calls in every time is
    /// cut off, and what it asked for in the last round is still carried out.
    pub fn flush_pending_behavior(&mut self, rounds: u32) -> (r: FlushRound)
        ensures
            r == (if old(self).reentrancy.in_operation || !old(self).reentrancy.pending {
                FlushRound::Stop
            } else if rounds >= FLUSH_ROUNDS {
                FlushRound::DrainLast
            } else {
                FlushRound::Drain
            }),
            *final(self) == (if r is Stop {
                *old(self)
            } else {
                BehaviorQueue {
                    reentrancy: ReentrancyGate { pending: false, ..old(self).reentrancy },
                    ..*old(self)
                }
            }),
    {
        if self.reentrancy.in_operation() {
            return FlushRound::Stop;
        }
        if !self.reentrancy.take_pending() {
            return FlushRound::Stop;
        }
        if rounds >= FLUSH_ROUNDS {
            FlushRound::DrainLast
        } else {
            FlushRound::Drain
        }
    }
}

/// A request that arrives during an operation stays in the queue and is marked, so that the end
/// of the outermost operation asks for its timer.
pub proof fn a_put_off_request_is_not_lost(q: BehaviorQueue)
    requires
        q.reentrancy.in_operation,
        q.has_request(),
    ensures
        q.called().behavior_outbox == q.behavior_outbox,
        q.called().selection_dirty == q.selection_dirty,
        q.called().reentrancy.left(false).pending,
        !q.called().reentrancy.left(false).in_operation,
{
}

/// What the host asks for is done only where the user could do it: a candidate is taken only while
/// candidates are shown, and it is the selected one; with clauses all of them are taken; and giving
/// up goes back one step, from the innermost thing that is under way.
pub proof fn a_request_does_what_a_key_would(f: BehaviorFacts)
    ensures
        !f.showing ==> plan_of(BehaviorAction::Finalize, f) == BehaviorPlan::Nothing,
        f.showing && f.clause_nav ==> plan_of(BehaviorAction::Finalize, f)
            == BehaviorPlan::CommitClauses,
        f.showing && !f.clause_nav && f.pick is Some ==> plan_of(BehaviorAction::Finalize, f) == (
        BehaviorPlan::CommitCandidate { index: f.pick->0 }),
        f.showing && !f.clause_nav && f.pick is None ==> plan_of(BehaviorAction::Finalize, f)
            == BehaviorPlan::Nothing,
        f.reconverting ==> plan_of(BehaviorAction::Abort, f) == BehaviorPlan::CancelReconvert,
        !f.reconverting && f.showing ==> plan_of(BehaviorAction::Abort, f)
            == BehaviorPlan::CloseCandidates,
        !f.reconverting && !f.showing && f.composing ==> plan_of(BehaviorAction::Abort, f)
            == BehaviorPlan::CancelComposition,
        !f.reconverting && !f.showing && !f.composing ==> plan_of(BehaviorAction::Abort, f)
            == BehaviorPlan::Nothing,
{
}

/// A call of the host takes nothing out of the queue; it is marked exactly if it has to wait and
/// there is something to do.
pub proof fn a_call_is_marked_if_it_has_to_wait(q: BehaviorQueue, g: ReentrancyGate, action: bool)
    ensures
        q.called().behavior_outbox == q.behavior_outbox,
        q.called().selection_dirty == q.selection_dirty,
        q.called().behavior_flush_timer == q.behavior_flush_timer,
        q.called().reentrancy.in_operation == q.reentrancy.in_operation,
        q.called().reentrancy.pending <==> q.reentrancy.pending || (q.reentrancy.in_operation && (
        q.behavior_outbox is Some || q.selection_dirty)),
        q.has_request() <==> q.behavior_outbox is Some || q.selection_dirty,
        g.entered().in_operation && g.entered().pending == g.pending,
        g.left(action).in_operation == action && g.left(action).pending == g.pending,
        g.signalled(action).in_operation == g.in_operation,
        g.signalled(action).pending <==> g.pending || (g.in_operation && action),
{
}

/// A queue is empty at first and nothing is under way; a call touches its mark only.
pub proof fn a_queue_begins_empty(q: BehaviorQueue)
    ensures
        BehaviorQueue::initial().behavior_outbox is None,
        !BehaviorQueue::initial().selection_dirty && !BehaviorQueue::initial().has_request(),
        !BehaviorQueue::initial().reentrancy.in_operation,
        !BehaviorQueue::initial().reentrancy.pending,
        BehaviorQueue::initial().behavior_flush_timer == 0,
        q.called() == (BehaviorQueue { reentrancy: q.called().reentrancy, ..q }),
{
}

/// Requests that come while others are carried out are looked after eight times at most.
pub proof fn requests_are_looked_after_eight_times()
    ensures
        FLUSH_ROUNDS == 8,
{
}

} // verus!
