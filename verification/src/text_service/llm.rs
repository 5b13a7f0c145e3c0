//! The conversion by an external model. The connection goes to a worker for that time, keys wait,
//! and whatever happens the keys are let in again.

use vstd::prelude::*;
use vstd::string::*;
use crate::engine::Request;
use crate::text::opt_view;
use crate::text_service::conversion::{next_seq, ConversionModel, ConversionState};
use crate::text_service::engine_link::EngineLink;
use crate::text_service::timer::TimerSlot;

verus! {

/// How often the worker is looked after, in milliseconds.
pub const LLM_POLL_MS: u32 = 50;

/// How long the external model may take, in milliseconds.
pub const LLM_TIMEOUT: u64 = 8000;

/// What is drawn while the external model is asked.
pub const LLM_WAITING_TEXT: &'static str = "🌐変換中…";

/// What the worker gets, besides the connection.
#[derive(Debug, PartialEq, Eq)]
pub struct LlmRequest {
    pub session: i64,
    pub seq: u64,
    pub left_context: Option<String>,
    /// The candidates that were shown are closed.
    pub close_candidates: bool,
    /// What is drawn meanwhile.
    pub waiting_text: String,
}

/// What the worker brought.
#[derive(Debug, PartialEq, Eq)]
pub struct LlmOutcome {
    pub seq: u64,
    /// The text, or nothing where the request failed.
    pub result: Option<String>,
    /// The connection is back.
    pub client: bool,
}

/// A text to draw, and the context to draw it in.
#[derive(Debug, PartialEq, Eq)]
pub struct Redraw {
    pub context: Option<usize>,
    pub text: String,
}

/// What follows a look after the worker.
#[derive(Clone, Copy, Debug, PartialEq, Eq, Structural)]
pub enum LlmPoll {
    /// The timer is not this one: it is stopped.
    Stale,
    Nothing,
    /// The worker is done: its outcome is used.
    Finished,
    /// The worker took too long: the wait is over.
    TimedOut,
}

impl ConversionModel {
    /// The external model can be asked.
    pub open spec fn can_ask_llm(self) -> bool {
        self.llm_enabled && self.composing && !self.awaiting_llm && self.live_text.len() > 0
    }

    /// The external model was asked.
    pub open spec fn asked_llm(self, ctx: usize, now: u64) -> ConversionModel {
        let closed = if self.showing {
            self.closed()
        } else {
            self
        };
        ConversionModel {
            pre_llm_text: self.live_text,
            current_context: Some(ctx),
            llm_seq: next_seq(self.llm_seq),
            awaiting_llm: true,
            llm_started: Some(now),
            debounce: self.debounce.disarmed(),
            llm_slot: true,
            ..closed
        }
    }

    /// What was shown before the external model was asked is shown again.
    pub open spec fn restored(self) -> ConversionModel {
        ConversionModel {
            last_good: self.restored_text(),
            live_text: self.pre_llm_text,
            ..self
        }
    }

    /// The text that is shown then.
    pub open spec fn restored_text(self) -> Seq<char> {
        if self.pre_llm_text.len() == 0 {
            self.last_reading
        } else {
            self.pre_llm_text
        }
    }

    /// The wait is over: keys are let in, and a late result is not the current one.
    pub open spec fn llm_aborted(self) -> ConversionModel {
        (ConversionModel {
            llm_seq: next_seq(self.llm_seq),
            awaiting_llm: false,
            llm_poll: self.llm_poll.disarmed(),
            llm_slot: false,
            llm_started: None,
            ..self
        }).restored()
    }

    /// Keys are let in.
    pub open spec fn llm_answered(self) -> ConversionModel {
        ConversionModel { awaiting_llm: false, llm_started: None, ..self }
    }

    /// The outcome is of the last request and holds a text.
    pub open spec fn takes(self, outcome: LlmOutcome) -> bool {
        outcome.seq == self.llm_seq && outcome.result is Some && outcome.result->0@.len() > 0
    }
}

impl ConversionState {
    /// Asks the external model about what is shown, if it may be asked and there is a connection
    /// to lend. The text for the wait is drawn next, then the worker starts.
    pub fn start_llm_convert(&mut self, link: &mut EngineLink, ctx: usize, now: u64) -> (r: Option<
        LlmRequest,
    >)
        ensures
            r is Some == (old(self)@.can_ask_llm() && old(link).client),
            r is None ==> final(self)@ == old(self)@ && *final(link) == *old(link),
            r matches Some(request) ==> {
                &&& final(self)@ == old(self)@.asked_llm(ctx, now)
                &&& *final(link) == (EngineLink { client: false, ..*old(link) })
                &&& request.session == old(link).session
                &&& request.seq == final(self)@.llm_seq
                &&& opt_view(request.left_context) == old(self)@.left_context
                &&& request.close_candidates == old(self)@.showing
                &&& request.waiting_text@ == LLM_WAITING_TEXT@
            },
    {
        if !self.llm_enabled || !self.composing || self.awaiting_llm
            || self.live_text.as_str().is_empty() {
            return None;
        }
        if !link.client {
            return None;
        }
        link.client = false;
        self.pre_llm_text = self.live_text.clone();
        self.current_context = Some(ctx);
        let close_candidates = self.showing;
        if close_candidates {
            self.close_candidates();
        }
        self.llm_seq = self.llm_seq.wrapping_add(1);
        self.awaiting_llm = true;
        self.llm_started = Some(now);
        self.disarm_debounce();
        self.llm_slot = true;
        let left_context = match &self.left_context {
            Some(text) => Some(text.clone()),
            None => None,
        };
        Some(
            LlmRequest {
                session: link.session,
                seq: self.llm_seq,
                left_context,
                close_candidates,
                waiting_text: LLM_WAITING_TEXT.to_owned(),
            },
        )
    }

    /// The worker started: it is looked after from now on.
    pub fn arm_llm_poll(&mut self)
        ensures
            final(self)@ == (ConversionModel {
                llm_poll: old(self)@.llm_poll.armed(LLM_POLL_MS),
                ..old(self)@
            }),
    {
        self.llm_poll.arm(LLM_POLL_MS);
    }

    /// The timer that looks after the worker was set. Without one neither the result nor a timeout
    /// would ever be noticed, so the wait ends at once.
    pub fn llm_poll_timer_set(&mut self, link: &mut EngineLink, id: usize) -> (r: Option<Redraw>)
        ensures
            ({
                let set = ConversionModel {
                    llm_poll: TimerSlot { id, wanted: None, ..old(self)@.llm_poll },
                    ..old(self)@
                };
                if id == 0 {
                    &&& final(self)@ == set.llm_aborted()
                    &&& final(link).pipe_name@.len() == 0
                    &&& *final(link) == (EngineLink {
                        pipe_name: final(link).pipe_name,
                        ..old(link).dropped()
                    })
                    &&& r matches Some(redraw) && redraw.context == old(self)@.current_context
                        && redraw.text@ == old(self)@.restored_text()
                } else {
                    final(self)@ == set && *final(link) == *old(link) && r is None
                }
            }),
    {
        self.llm_poll.set(id);
        if id == 0 {
            Some(self.abort_llm(link))
        } else {
            None
        }
    }

    fn restore_pre_llm(&mut self) -> (r: Redraw)
        ensures
            r.context == old(self)@.current_context,
            r.text@ == old(self)@.restored_text(),
            final(self)@ == old(self)@.restored(),
    {
        let text = if self.pre_llm_text.as_str().is_empty() {
            self.last_reading.clone()
        } else {
            self.pre_llm_text.clone()
        };
        self.mark_good(text.as_str());
        self.live_text = self.pre_llm_text.clone();
        Redraw { context: self.current_context, text }
    }

    /// Ends the wait: the user gave it up, it took too long, or it could not begin. The connection
    /// is lost with the worker, and the name of its pipe is found anew.
    pub fn abort_llm(&mut self, link: &mut EngineLink) -> (r: Redraw)
        ensures
            final(self)@ == old(self)@.llm_aborted(),
            final(link).pipe_name@.len() == 0,
            *final(link) == (EngineLink {
                pipe_name: final(link).pipe_name,
                ..old(link).dropped()
            }),
            r.context == old(self)@.current_context,
            r.text@ == old(self)@.restored_text(),
    {
        self.llm_seq = self.llm_seq.wrapping_add(1);
        self.awaiting_llm = false;
        self.llm_poll.disarm();
        self.llm_slot = false;
        self.llm_started = None;
        link.pipe_name = String::new();
        link.drop_engine();
        self.restore_pre_llm()
    }

    /// The wait takes too long.
    pub open spec fn overdue(self, now: u64) -> bool {
        self.llm_started is Some && now >= self.llm_started->0 + LLM_TIMEOUT
    }

    /// Whether the wait takes too long.
    pub fn llm_timed_out(&self, now: u64) -> (r: bool)
        ensures
            r == self.overdue(now),
    {
        match self.llm_started {
            Some(started) => now >= started && now - started >= LLM_TIMEOUT,
            None => false,
        }
    }

    /// The timer fired: looks after the worker.
    pub fn poll_llm(&mut self, id: usize, has_outcome: bool, now: u64) -> (r: LlmPoll)
        ensures
            r == (if old(self)@.llm_poll.id != id {
                LlmPoll::Stale
            } else if has_outcome {
                LlmPoll::Finished
            } else if old(self).overdue(now) {
                LlmPoll::TimedOut
            } else {
                LlmPoll::Nothing
            }),
            final(self)@ == (if r == LlmPoll::Finished {
                ConversionModel {
                    llm_poll: old(self)@.llm_poll.disarmed(),
                    llm_slot: false,
                    ..old(self)@
                }
            } else {
                old(self)@
            }),
    {
        if self.llm_poll.id != id {
            return LlmPoll::Stale;
        }
        if has_outcome {
            self.llm_poll.disarm();
            self.llm_slot = false;
            return LlmPoll::Finished;
        }
        if self.llm_timed_out(now) {
            LlmPoll::TimedOut
        } else {
            LlmPoll::Nothing
        }
    }

    /// Uses the worker's outcome: the text of the last request is shown; anything else restores
    /// what was shown before. A failed request loses the connection. The second result ends a
    /// session that ended meanwhile.
    pub fn on_llm_outcome(&mut self, link: &mut EngineLink, outcome: LlmOutcome) -> (r: (
        Redraw,
        Option<Request>,
    ))
        ensures
            r.0.context == old(self)@.current_context,
            if old(self)@.takes(outcome) {
                &&& final(self)@ == old(self)@.llm_answered().shows(outcome.result->0@)
                &&& r.0.text@ == outcome.result->0@
            } else {
                &&& final(self)@ == old(self)@.llm_answered().restored()
                &&& r.0.text@ == old(self)@.restored_text()
            },
            if outcome.result is None {
                *final(link) == old(link).dropped() && r.1 is None
            } else {
                let back = EngineLink { client: old(link).client || outcome.client, ..*old(link) };
                &&& *final(link) == (EngineLink { pending_end_session: 0, ..back })
                &&& r.1 == (if back.client && back.pending_end_session != 0 {
                    Some(Request::EndSession { session: back.pending_end_session })
                } else {
                    None
                })
            },
    {
        self.awaiting_llm = false;
        self.llm_started = None;
        let fresh = outcome.seq == self.llm_seq;
        let text = match outcome.result {
            Some(text) => text,
            None => {
                link.drop_engine();
                return (self.restore_pre_llm(), None);
            },
        };
        if outcome.client {
            link.client = true;
        }
        let end = link.flush_pending_end_session();
        if fresh && !text.as_str().is_empty() {
            self.mark_good(text.as_str());
            self.live_text = text.clone();
            return (Redraw { context: self.current_context, text }, end);
        }
        (self.restore_pre_llm(), end)
    }
}

/// However the wait ends, keys are let in again, and what is shown may be committed.
pub proof fn a_wait_always_ends(conversion: ConversionModel, outcome: LlmOutcome)
    ensures
        !conversion.llm_aborted().awaiting_llm,
        !conversion.llm_answered().restored().awaiting_llm,
        conversion.llm_aborted().last_good == conversion.llm_aborted().shown_text(),
        outcome.result is Some ==> !conversion.llm_answered().shows(
            outcome.result->0@,
        ).awaiting_llm,
{
}

/// A result that comes after the wait was ended is never shown.
pub proof fn a_late_result_is_not_shown(conversion: ConversionModel, outcome: LlmOutcome)
    requires
        outcome.seq == conversion.llm_seq,
    ensures
        !conversion.llm_aborted().takes(outcome),
{
}

/// The external model is asked only about something that is composed and shown, and once at a time.
/// Keys wait then; what was shown is kept, the request has a number of its own, no candidates are
/// shown, and no pause is waited for.
pub proof fn the_external_model_is_asked_about_what_is_shown(
    m: ConversionModel,
    ctx: usize,
    now: u64,
)
    ensures
        m.can_ask_llm() <==> m.llm_enabled && m.composing && !m.awaiting_llm && m.live_text.len() > 0,
        ({
            let after = m.asked_llm(ctx, now);
            &&& after.awaiting_llm && after.llm_slot && after.llm_started == Some(now)
            &&& after.pre_llm_text == m.live_text && after.live_text == m.live_text
            &&& after.current_context == Some(ctx)
            &&& after.llm_seq != m.llm_seq
            &&& !after.showing && !after.debounce.pending()
            &&& m.showing ==> after.clause_nav is None
            &&& after.last_reading == m.last_reading && after.left_context == m.left_context
            &&& after.composing == m.composing && after.live_seq == m.live_seq
        }),
{
}

/// However a wait ends without a text, what was shown before it is shown again, or the reading where
/// nothing was shown; and it is what may be committed.
pub proof fn what_was_shown_comes_back(m: ConversionModel, ctx: usize, now: u64)
    ensures
        m.pre_llm_text.len() > 0 ==> m.restored_text() == m.pre_llm_text,
        m.pre_llm_text.len() == 0 ==> m.restored_text() == m.last_reading,
        m.restored().live_text == m.pre_llm_text && m.restored().last_good == m.restored_text(),
        m.restored().composing == m.composing && m.restored().last_reading == m.last_reading,
        m.can_ask_llm() ==> m.asked_llm(ctx, now).llm_aborted().live_text == m.live_text,
        m.can_ask_llm() ==> m.asked_llm(ctx, now).llm_aborted().shown_text() == m.live_text,
        ({
            let after = m.llm_aborted();
            &&& !after.awaiting_llm && !after.llm_slot && after.llm_started is None
            &&& !after.llm_poll.pending()
            &&& after.llm_seq != m.llm_seq
            &&& after.live_text == m.pre_llm_text
            &&& after.current_context == m.current_context && after.composing == m.composing
        }),
        ({
            let after = m.llm_answered();
            &&& !after.awaiting_llm && after.llm_started is None
            &&& after.llm_seq == m.llm_seq && after.live_text == m.live_text
            &&& after.pre_llm_text == m.pre_llm_text && after.last_good == m.last_good
        }),
{
}

/// A text is taken exactly if it answers the last request and says something; and a wait takes too
/// long after 8 seconds.
pub proof fn only_the_last_request_is_answered(
    m: ConversionModel,
    c: ConversionState,
    outcome: LlmOutcome,
    now: u64,
)
    ensures
        m.takes(outcome) <==> outcome.seq == m.llm_seq && outcome.result is Some
            && outcome.result->0@.len() > 0,
        c.overdue(now) <==> c.llm_started is Some && now >= c.llm_started->0 + 8000,
{
}

/// A wait touches what belongs to it, and a text that comes back touches what is shown.
pub proof fn a_wait_keeps_the_rest(m: ConversionModel, ctx: usize, now: u64)
    ensures
        ({
            let after = m.asked_llm(ctx, now);
            &&& after == (ConversionModel {
                pre_llm_text: m.live_text,
                current_context: Some(ctx),
                llm_seq: after.llm_seq,
                awaiting_llm: true,
                llm_started: Some(now),
                debounce: after.debounce,
                llm_slot: true,
                showing: false,
                clause_nav: after.clause_nav,
                ..m
            })
            &&& !m.showing ==> after.clause_nav == m.clause_nav
        }),
        m.restored() == (ConversionModel {
            last_good: m.restored().last_good,
            live_text: m.pre_llm_text,
            ..m
        }),
        ({
            let after = m.llm_aborted();
            &&& after == (ConversionModel {
                llm_seq: after.llm_seq,
                awaiting_llm: false,
                llm_poll: after.llm_poll,
                llm_slot: false,
                llm_started: None,
                last_good: after.last_good,
                live_text: m.pre_llm_text,
                ..m
            })
            &&& after.last_good == m.restored_text()
        }),
        m.llm_answered() == (ConversionModel { awaiting_llm: false, llm_started: None, ..m }),
{
}

/// An answer of the external model is looked for twenty times a second, for eight seconds, and a
/// text says so meanwhile.
pub proof fn a_wait_is_looked_after()
    ensures
        LLM_POLL_MS * 20 == 1000 && LLM_TIMEOUT == 8 * 1000,
        LLM_WAITING_TEXT@ == "🌐変換中…"@,
{
}

} // verus!
