//! The prediction behind the caret: asking for it, drawing it, and taking it away again. The
//! drawing is a composition of its own, which the host may refuse to end; it is then ended later,
//! a bounded number of times.

use vstd::prelude::*;
use vstd::string::*;
use crate::prediction_state::{
    sat_add, CommitSource, Invalidation, PredictionAnchor, PredictionModel, PredictionRequest,
    PredictionState, Timestamp,
};
use crate::prediction_worker::{IpcPredictionOutcome, IpcPredictionResult};
use crate::text_service::timer::TimerSlot;

verus! {

/// How long a finished attempt to end the drawing waits for the next, in milliseconds.
pub const PREDICTION_RETRY_MS: u32 = 50;

/// How often the end of the drawing is tried again.
pub const PREDICTION_RETRY_MAX: u8 = 8;

/// How long a commit waits before it asks, in milliseconds.
pub const PREDICTION_DEBOUNCE_MS: u32 = 300;

/// How often an answer is looked for, in milliseconds.
pub const PREDICTION_POLL_MS: u32 = 15;

/// How long an answer may take, in milliseconds.
pub const PREDICTION_TIMEOUT_MS: u64 = 400;

/// Whether an edit is the expected tail of a commit. Only one edit is expected, and only for a
/// while; a moved selection is never it.
pub fn consume_expected_prediction_commit_end_edit(
    deadline: &mut Option<u64>,
    selection_changed: bool,
    now: u64,
) -> (r: bool)
    ensures
        r == ((*old(deadline)) is Some && !selection_changed && now <= (*old(deadline))->0),
        *final(deadline) == None::<u64>,
{
    match deadline.take() {
        Some(until) => !selection_changed && now <= until,
        None => false,
    }
}

/// Whether a drawing may begin: none stands, and none is being taken away.
pub fn prediction_slot_available(physical_composition: bool, finish_pending: bool) -> (r: bool)
    ensures
        r == (!physical_composition && !finish_pending),
{
    !physical_composition && !finish_pending
}

/// Whether the mode lets a prediction be shown.
pub fn prediction_mode_allows_display(direct: bool, ephemeral: bool) -> (r: bool)
    ensures
        r == (!direct && !ephemeral),
{
    !direct && !ephemeral
}

/// Whether nothing may be predicted here. An unknown scope is not held against the field.
pub fn prediction_scope_is_sensitive(keyboard_disabled: bool, password: Option<bool>) -> (r: bool)
    ensures
        r == (keyboard_disabled || password == Some(true)),
{
    keyboard_disabled || match password {
        Some(known) => known,
        None => false,
    }
}

/// A preserved key that waits for the drawing to go away.
#[derive(Clone, Copy, Debug, PartialEq, Eq, Structural)]
pub struct DeferredPredictionPreservedKey {
    pub context: Option<usize>,
    pub guid: u128,
}

/// The prediction and its drawing.
pub struct PredictionUi {
    pub state: PredictionState,
    pub enabled: bool,
    /// A worker is asked. Once this is false again, nobody waits for that worker.
    pub slot: bool,
    /// The composition of the drawing.
    pub composition: Option<usize>,
    /// The context that the drawing stands in.
    pub context: Option<usize>,
    /// The context that refused a drawing.
    pub failed_context: Option<usize>,
    /// The drawing is being taken away; `true` keeps its text.
    pub finish_pending: Option<bool>,
    pub retry: TimerSlot,
    pub retry_count: u8,
    pub poll: TimerSlot,
    pub commit_edit_deadline: Option<u64>,
    pub anchor_gen: u64,
    pub deferred: Vec<DeferredPredictionPreservedKey>,
}

/// The value of a [`PredictionUi`].
#[verifier::ext_equal]
pub struct UiModel {
    pub state: PredictionModel,
    pub enabled: bool,
    pub slot: bool,
    pub composition: Option<usize>,
    pub context: Option<usize>,
    pub failed_context: Option<usize>,
    pub finish_pending: Option<bool>,
    pub retry: TimerSlot,
    pub retry_count: u8,
    pub poll: TimerSlot,
    pub commit_edit_deadline: Option<u64>,
    pub anchor_gen: u64,
    pub deferred: Seq<DeferredPredictionPreservedKey>,
}

impl View for PredictionUi {
    type V = UiModel;

    open spec fn view(&self) -> UiModel {
        UiModel {
            state: self.state@,
            enabled: self.enabled,
            slot: self.slot,
            composition: self.composition,
            context: self.context,
            failed_context: self.failed_context,
            finish_pending: self.finish_pending,
            retry: self.retry,
            retry_count: self.retry_count,
            poll: self.poll,
            commit_edit_deadline: self.commit_edit_deadline,
            anchor_gen: self.anchor_gen,
            deferred: self.deferred@,
        }
    }
}

/// `a`, or `b` where there is no `a`.
pub open spec fn or_else(a: Option<usize>, b: Option<usize>) -> Option<usize> {
    if a is Some {
        a
    } else {
        b
    }
}

impl UiModel {
    /// Nothing was ever predicted.
    pub open spec fn initial() -> UiModel {
        UiModel {
            state: PredictionModel::initial(),
            enabled: false,
            slot: false,
            composition: None,
            context: None,
            failed_context: None,
            finish_pending: None,
            retry: TimerSlot::idle(),
            retry_count: 0,
            poll: TimerSlot::idle(),
            commit_edit_deadline: None,
            anchor_gen: 0,
            deferred: Seq::empty(),
        }
    }

    /// A drawing stands in a document.
    pub open spec fn ghost_visible(self) -> bool {
        self.composition is Some
    }

    /// The drawing is being taken away.
    pub open spec fn cleanup_in_progress(self) -> bool {
        self.ghost_visible() && self.finish_pending is Some
    }

    /// Nothing is predicted any more, and no answer is waited for.
    pub open spec fn invalidated(self, reason: Invalidation) -> UiModel {
        UiModel {
            commit_edit_deadline: None,
            slot: false,
            state: self.state.after_invalidation(reason),
            ..self
        }
    }

    /// An answer is looked for after a while.
    pub open spec fn polls_in(self, delay_ms: u32) -> UiModel {
        UiModel { poll: self.poll.armed(delay_ms), ..self }
    }

    /// No answer is looked for.
    pub open spec fn polls_no_more(self) -> UiModel {
        UiModel { poll: self.poll.disarmed(), ..self }
    }

    /// The context of the drawing, or the focused one, refused a drawing.
    pub open spec fn refused_by_owner(self, focused: Option<usize>) -> UiModel {
        let owner = or_else(self.context, focused);
        UiModel {
            failed_context: if owner is Some {
                owner
            } else {
                self.failed_context
            },
            ..self
        }
    }

    /// The end of the drawing is not tried again.
    pub open spec fn retries_no_more(self) -> UiModel {
        UiModel { retry: self.retry.disarmed(), retry_count: 0, ..self }
    }

    /// The drawing is gone.
    pub open spec fn cleaned(self) -> UiModel {
        UiModel { context: None, finish_pending: None, ..self }
    }

    /// The end of the drawing is tried again, unless there is nothing to end, a try is due
    /// already, or the tries are used up.
    pub open spec fn retries(self, reset_budget: bool) -> UiModel {
        if self.composition is None && self.deferred.len() == 0 {
            self.cleaned().retries_no_more()
        } else {
            let count = if reset_budget {
                0u8
            } else {
                self.retry_count
            };
            UiModel {
                retry_count: count,
                retry: if self.retry.pending() || count >= PREDICTION_RETRY_MAX {
                    self.retry
                } else {
                    self.retry.armed(PREDICTION_RETRY_MS)
                },
                ..self
            }
        }
    }

    /// The anchor of the next text.
    pub open spec fn next_anchor(self) -> u64 {
        sat_add(self.anchor_gen, 1)
    }

    /// The model after a text was committed: its tail edit is expected for a while, and the engine
    /// is asked after a pause if there is enough to go on.
    pub open spec fn committed(
        self,
        source: CommitSource,
        text: Seq<char>,
        anchor: PredictionAnchor,
        now: u64,
    ) -> UiModel {
        let after = UiModel {
            slot: false,
            anchor_gen: self.next_anchor(),
            state: self.state.after_commit(source, text, anchor, now),
            commit_edit_deadline: Some(sat_add(now, PREDICTION_DEBOUNCE_MS as u64)),
            ..self
        };
        if after.state.active() {
            after.polls_in(PREDICTION_DEBOUNCE_MS)
        } else {
            after.polls_no_more()
        }
    }
}

/// What follows when the poll timer fired.
#[derive(Debug)]
pub enum PollStep {
    Nothing,
    /// The mode does not let a prediction stand: it is waved away.
    Dismiss,
    /// The prediction came: it is drawn in the context whose layout is reported.
    Show { ctx: usize },
    /// A worker is started for the request.
    Ask(PredictionRequest),
}

/// What decides whether a prediction is drawn.
#[derive(Clone, Copy, Debug, PartialEq, Eq, Structural)]
pub struct ShowFacts {
    pub direct: bool,
    pub ephemeral: bool,
    /// Edits of the focused context are reported.
    pub edit_sink: bool,
    /// The context whose edits are reported.
    pub sink_context: Option<usize>,
    /// The display attribute of predictions is there.
    pub attribute: bool,
    /// A composition stands, or is owed its end, or candidates are shown.
    pub busy: bool,
    pub password: bool,
}

/// What comes of the wish to draw a prediction.
pub enum Showing {
    /// It is forgotten.
    Forget(Invalidation),
    /// The context cannot be drawn in.
    Refuse,
    Nothing,
    Draw(Seq<char>),
}

/// How taking a drawing away begins.
#[derive(Clone, Copy, Debug, PartialEq, Eq, Structural)]
pub enum FinishStart {
    /// There is no context to ask; it is known whether the drawing is gone.
    Known(bool),
    /// The context is asked to take the drawing away, or to keep its text.
    Ask { context: usize, accept: bool },
}

/// What the request left behind.
#[derive(Clone, Copy, Debug, PartialEq, Eq, Structural)]
pub struct FinishReport {
    /// The host took the request, and it did not fail as far as it was carried out.
    pub taken: bool,
    pub composition: Option<usize>,
    pub context: Option<usize>,
    pub finish_pending: Option<bool>,
    pub failed_context: Option<usize>,
}

/// What follows when the retry timer fired.
#[derive(Clone, Copy, Debug, PartialEq, Eq, Structural)]
pub enum RetryStep {
    Nothing,
    /// The drawing is gone: the preedit and the keys that were put off go on.
    Resume,
    /// The drawing is taken away once more.
    Finish(FinishStart),
}

impl UiModel {
    /// `self` became `after` when the poll timer `id` fired, and `step` follows.
    pub open spec fn polled(
        self,
        after: UiModel,
        step: PollStep,
        id: usize,
        mode_allows: bool,
        layout_ctx: Option<usize>,
        outcome: Option<IpcPredictionOutcome>,
        now: u64,
    ) -> bool {
        let fired = UiModel {
            poll: self.poll.fired(id),
            commit_edit_deadline: None,
            ..self
        };
        if self.poll.id != id {
            after == self && step is Nothing
        } else if !mode_allows {
            if self.ghost_visible() {
                after == fired && step is Dismiss
            } else {
                after == fired.invalidated(Invalidation::ModeChanged) && step is Nothing
            }
        } else {
            match outcome {
                Some(IpcPredictionOutcome { seq, result: IpcPredictionResult::Prediction(text), .. })
                => {
                    &&& after == (UiModel {
                        slot: false,
                        state: fired.state.after_result(seq, text@, now),
                        ..fired
                    })
                    &&& if fired.state.shown(seq, text@, now) is Some && layout_ctx is Some {
                        step == (PollStep::Show { ctx: layout_ctx->0 })
                    } else {
                        step is Nothing
                    }
                },
                Some(IpcPredictionOutcome { seq, .. }) => {
                    &&& after == (UiModel {
                        slot: false,
                        state: fired.state.after_result(seq, Seq::empty(), now),
                        ..fired
                    })
                    &&& step is Nothing
                },
                None => if fired.state.pending is Some && fired.state.pending->0.deadline < now {
                    &&& after == (UiModel {
                        slot: false,
                        state: PredictionModel { pending: None, ..fired.state },
                        ..fired
                    })
                    &&& step is Nothing
                } else if self.slot {
                    after == fired.polls_in(PREDICTION_POLL_MS) && step is Nothing
                } else {
                    let asked = UiModel { state: fired.state.after_poll(now), ..fired };
                    if fired.state.due(now) {
                        &&& after == (UiModel { slot: true, ..asked })
                        &&& step matches PollStep::Ask(request) && request@
                            == fired.state.request_at(now)
                    } else {
                        &&& after == (if asked.state.active() {
                            asked.polls_in(PREDICTION_POLL_MS)
                        } else {
                            asked
                        })
                        &&& step is Nothing
                    }
                },
            }
        }
    }

    /// What comes of the wish to draw the prediction in a context.
    pub open spec fn showing(self, ctx: usize, facts: ShowFacts) -> Showing {
        if facts.direct || facts.ephemeral {
            Showing::Forget(Invalidation::ModeChanged)
        } else if !facts.edit_sink || facts.sink_context != Some(ctx) {
            Showing::Refuse
        } else if self.composition is Some || self.finish_pending is Some {
            Showing::Forget(Invalidation::Input)
        } else if self.failed_context == Some(ctx) || !facts.attribute || facts.busy
            || facts.password || self.state.ghost_text is None {
            Showing::Nothing
        } else {
            Showing::Draw(self.state.ghost_text->0.text)
        }
    }

    /// How taking the drawing away begins.
    pub open spec fn finish_start(self, accept: bool) -> FinishStart {
        match self.context {
            None => FinishStart::Known(self.composition is None),
            Some(context) => FinishStart::Ask { context, accept },
        }
    }

    /// The drawing is being taken away.
    pub open spec fn finishing(self, accept: bool) -> UiModel {
        if self.context is None {
            self
        } else {
            UiModel { finish_pending: Some(accept), ..self }
        }
    }

    /// What the request left behind.
    pub open spec fn reported(self, report: FinishReport) -> UiModel {
        UiModel {
            composition: report.composition,
            context: report.context,
            finish_pending: report.finish_pending,
            failed_context: report.failed_context,
            ..self
        }
    }

    /// A try to take the drawing away ended.
    pub open spec fn retried(self, done: bool, focused: Option<usize>) -> UiModel {
        if done {
            UiModel { retry_count: 0, ..self }
        } else {
            let marked = if self.context is Some && self.context == focused {
                self.refused_by_owner(focused)
            } else {
                self
            };
            (UiModel {
                retry_count: if self.retry_count == u8::MAX {
                    u8::MAX
                } else {
                    (self.retry_count + 1) as u8
                },
                ..marked
            }).retries(false)
        }
    }

    /// The text of the prediction was committed.
    pub open spec fn accepted(self, anchor: PredictionAnchor, now: u64) -> UiModel {
        let bumped = UiModel { anchor_gen: self.next_anchor(), ..self };
        match self.state.ghost_text {
            Some(shown) => (UiModel {
                state: (PredictionModel { ghost_text: None, ..self.state }).after_commit(
                    CommitSource::AcceptedPrediction,
                    shown.text,
                    anchor,
                    now,
                ),
                ..bumped
            }).polls_in(PREDICTION_DEBOUNCE_MS),
            None => bumped,
        }
    }

    /// The prediction was waved away.
    pub open spec fn dismissed(self) -> UiModel {
        if self.state.ghost_text is Some {
            UiModel {
                state: PredictionModel {
                    ghost_text: None,
                    suppressed: Some(self.state.context),
                    ..self.state
                },
                ..self
            }
        } else {
            self
        }
    }
}

impl PredictionUi {
    pub fn new() -> (r: Self)
        ensures
            r@ == UiModel::initial(),
            r@.state.wf(),
    {
        PredictionUi {
            state: PredictionState::default(),
            enabled: false,
            slot: false,
            composition: None,
            context: None,
            failed_context: None,
            finish_pending: None,
            retry: TimerSlot::new(),
            retry_count: 0,
            poll: TimerSlot::new(),
            commit_edit_deadline: None,
            anchor_gen: 0,
            deferred: Vec::new(),
        }
    }

    /// Whether a drawing stands in a document.
    pub fn prediction_ghost_visible(&self) -> (r: bool)
        ensures
            r == self@.ghost_visible(),
    {
        self.composition.is_some()
    }

    /// Whether the user can take or dismiss the prediction.
    pub fn prediction_ghost_actionable(&self, direct: bool, ephemeral: bool) -> (r: bool)
        ensures
            r == (self@.ghost_visible() && self@.finish_pending is None && self@.state.ghost_text
                is Some && !direct && !ephemeral),
    {
        self.prediction_ghost_visible() && self.finish_pending.is_none()
            && self.state.ghost().is_some() && prediction_mode_allows_display(direct, ephemeral)
    }

    /// Whether the drawing is being taken away.
    pub fn prediction_cleanup_in_progress(&self) -> (r: bool)
        ensures
            r == self@.cleanup_in_progress(),
    {
        self.prediction_ghost_visible() && self.finish_pending.is_some()
    }

    /// Whether the context of the drawing has the focus.
    pub fn prediction_owner_is_focused(&self, focused: Option<usize>) -> (r: bool)
        ensures
            r == (self@.context is Some && self@.context == focused),
    {
        match (self.context, focused) {
            (Some(owner), Some(focused)) => owner == focused,
            _ => false,
        }
    }

    /// A context refused a drawing.
    pub fn mark_prediction_tsf_failure_for(&mut self, ctx: usize)
        ensures
            final(self)@ == (UiModel { failed_context: Some(ctx), ..old(self)@ }),
    {
        self.failed_context = Some(ctx);
    }

    /// The context of the drawing, or else the focused one, refused a drawing.
    pub fn mark_prediction_tsf_failure_for_owner(&mut self, focused: Option<usize>)
        ensures
            final(self)@ == old(self)@.refused_by_owner(focused),
    {
        let owner = if self.context.is_some() {
            self.context
        } else {
            focused
        };
        if owner.is_some() {
            self.failed_context = owner;
        }
    }

    /// Whether a context refused a drawing before.
    pub fn prediction_failed_for(&self, ctx: usize) -> (r: bool)
        ensures
            r == (self@.failed_context == Some(ctx)),
    {
        match self.failed_context {
            Some(failed) => failed == ctx,
            None => false,
        }
    }

    /// A key comes while the drawing is being taken away: that is tried anew. The key goes its
    /// own way.
    pub fn retry_prediction_cleanup_on_input(&mut self)
        ensures
            final(self)@ == (if old(self)@.cleanup_in_progress() {
                old(self)@.retries(true)
            } else {
                old(self)@
            }),
    {
        if self.prediction_cleanup_in_progress() {
            self.arm_prediction_finish_retry(true);
        }
    }

    /// A key comes: what was put off is not wanted any more.
    pub fn cancel_deferred_prediction_preserved_on_input(&mut self)
        ensures
            final(self)@ == (UiModel { deferred: Seq::empty(), ..old(self)@ }),
    {
        self.deferred.clear();
    }

    /// Puts a preserved key off, once for each kind.
    pub fn defer_prediction_preserved_key(&mut self, context: Option<usize>, guid: u128)
        ensures
            final(self)@ == (if exists|i: int|
                0 <= i < old(self)@.deferred.len() && old(self)@.deferred[i].guid == guid {
                old(self)@
            } else {
                UiModel {
                    deferred: old(self)@.deferred.push(
                        DeferredPredictionPreservedKey { context, guid },
                    ),
                    ..old(self)@
                }
            }),
    {
        let mut i: usize = 0;
        while i < self.deferred.len()
            invariant
                self == old(self),
                i <= self.deferred@.len(),
                forall|k: int| 0 <= k < i ==> self.deferred@[k].guid != guid,
            decreases self.deferred@.len() - i,
        {
            if self.deferred[i].guid == guid {
                assert(old(self)@.deferred[i as int].guid == guid);
                return;
            }
            i = i + 1;
        }
        self.deferred.push(DeferredPredictionPreservedKey { context, guid });
    }

    /// Takes the preserved keys that were put off, once the drawing is gone.
    pub fn flush_deferred_prediction_preserved_keys_if_ready(&mut self) -> (r: Vec<
        DeferredPredictionPreservedKey,
    >)
        ensures
            old(self)@.ghost_visible() ==> r@.len() == 0 && final(self)@ == old(self)@,
            !old(self)@.ghost_visible() ==> r@ == old(self)@.deferred && final(self)@ == (UiModel {
                deferred: Seq::empty(),
                ..old(self)@
            }),
    {
        let mut keys: Vec<DeferredPredictionPreservedKey> = Vec::new();
        if self.prediction_ghost_visible() {
            return keys;
        }
        std::mem::swap(&mut keys, &mut self.deferred);
        keys
    }

    fn next_prediction_anchor(&mut self) -> (r: PredictionAnchor)
        ensures
            r.value() == old(self)@.next_anchor(),
            final(self)@ == (UiModel { anchor_gen: old(self)@.next_anchor(), ..old(self)@ }),
    {
        self.anchor_gen = self.anchor_gen.saturating_add(1);
        PredictionAnchor::new(self.anchor_gen)
    }

    /// The user committed a text. Without a context, or where nothing may be predicted, all that
    /// was predicted is forgotten.
    pub fn on_explicit_prediction_commit(
        &mut self,
        source: CommitSource,
        text: &str,
        context: Option<usize>,
        sensitive: bool,
        now: u64,
    )
        ensures
            if !old(self)@.enabled || text@.len() == 0 {
                final(self)@ == old(self)@
            } else if context is None || sensitive {
                final(self)@ == old(self)@.invalidated(Invalidation::Disabled)
            } else {
                exists|anchor: PredictionAnchor|
                    #![trigger anchor.value()]
                    anchor.value() == old(self)@.next_anchor() && final(self)@ == old(self)@.committed(source, text@, anchor, now)
            },
            old(self)@.enabled && text@.len() > 0 && context is Some && !sensitive && (source is Enter
                || source is Candidate || source is Clause || source is AcceptedPrediction) ==> {
                let grown = crate::text::tail(old(self)@.state.context + text@, 256);
                &&& final(self)@.state.context == grown
                &&& grown.len() >= 8 ==> final(self)@.poll.wanted == Some(300u32)
                    && final(self)@.state.debounce is Some
                &&& grown.len() < 8 ==> !final(self)@.poll.pending() && final(self)@.state.debounce
                    is None
            },
    {
        if !self.enabled || text.is_empty() {
            return;
        }
        if context.is_none() || sensitive {
            self.invalidate_prediction(Invalidation::Disabled);
            return;
        }
        self.slot = false;
        let anchor = self.next_prediction_anchor();
        self.state.on_commit(source, text, anchor, Timestamp::from_millis(now));
        self.commit_edit_deadline = Some(now.saturating_add(PREDICTION_DEBOUNCE_MS as u64));
        if self.state.has_activity() {
            self.arm_prediction_poll(PREDICTION_DEBOUNCE_MS);
        } else {
            self.disarm_prediction_poll();
        }
        assert(anchor.value() == old(self)@.next_anchor());
    }

    /// Nothing is predicted any more.
    pub fn invalidate_prediction(&mut self, reason: Invalidation)
        ensures
            final(self)@ == old(self)@.invalidated(reason),
    {
        self.commit_edit_deadline = None;
        self.slot = false;
        self.state.invalidate(reason);
    }

    fn arm_prediction_poll(&mut self, delay_ms: u32)
        ensures
            final(self)@ == old(self)@.polls_in(delay_ms),
    {
        self.poll.arm(delay_ms);
    }

    fn disarm_prediction_poll(&mut self)
        ensures
            final(self)@ == old(self)@.polls_no_more(),
    {
        self.poll.disarm();
    }

    /// The timer for the next look was set; without one nothing is predicted.
    pub fn prediction_poll_timer_set(&mut self, id: usize)
        ensures
            final(self)@ == ({
                let set = UiModel {
                    poll: TimerSlot { id, wanted: None, ..old(self)@.poll },
                    ..old(self)@
                };
                if id == 0 {
                    set.invalidated(Invalidation::Disabled)
                } else {
                    set
                }
            }),
    {
        self.poll.set(id);
        if id == 0 {
            self.invalidate_prediction(Invalidation::Disabled);
        }
    }

    fn disarm_prediction_finish_retry(&mut self)
        ensures
            final(self)@ == old(self)@.retries_no_more(),
    {
        self.retry.disarm();
        self.retry_count = 0;
    }

    fn arm_prediction_finish_retry(&mut self, reset_budget: bool)
        ensures
            final(self)@ == old(self)@.retries(reset_budget),
    {
        if self.composition.is_none() && self.deferred.len() == 0 {
            self.context = None;
            self.finish_pending = None;
            self.disarm_prediction_finish_retry();
            return;
        }
        if reset_budget {
            self.retry_count = 0;
        }
        if self.retry.is_pending() {
            return;
        }
        if self.retry_count >= PREDICTION_RETRY_MAX {
            return;
        }
        self.retry.arm(PREDICTION_RETRY_MS);
    }

    /// The timer for the next try was set; where it could not be set, a focused context counts as
    /// one that refused.
    pub fn prediction_retry_timer_set(&mut self, id: usize, focused: Option<usize>)
        ensures
            final(self)@ == ({
                let set = UiModel {
                    retry: TimerSlot { id, wanted: None, ..old(self)@.retry },
                    ..old(self)@
                };
                if id == 0 && old(self)@.context is Some && old(self)@.context == focused {
                    set.refused_by_owner(focused)
                } else {
                    set
                }
            }),
    {
        self.retry.set(id);
        if id == 0 && self.prediction_owner_is_focused(focused) {
            self.mark_prediction_tsf_failure_for_owner(focused);
        }
    }

    /// The drawing ended; `internal` tells that the service itself ended it.
    pub fn ghost_terminated(&mut self, internal: bool)
        ensures
            final(self)@ == old(self)@.terminated(internal),
    {
        self.composition = None;
        self.context = None;
        self.finish_pending = None;
        if self.deferred.len() == 0 {
            self.disarm_prediction_finish_retry();
        } else {
            self.arm_prediction_finish_retry(false);
        }
        if !internal {
            self.invalidate_prediction(Invalidation::Input);
        }
    }

    /// The service is switched off: no timer runs, and nothing is predicted.
    pub fn switch_off(&mut self)
        ensures
            final(self)@ == old(self)@.retries_no_more().polls_no_more().invalidated(
                Invalidation::Disabled,
            ),
    {
        self.disarm_prediction_finish_retry();
        self.disarm_prediction_poll();
        self.invalidate_prediction(Invalidation::Disabled);
    }

    /// Whether the outcome of the worker is taken when the timer `id` fires: a timer that was
    /// replaced leaves it where it is, and so does a mode that lets no prediction stand.
    pub fn takes_outcome(&self, id: usize, direct: bool, ephemeral: bool) -> (r: bool)
        ensures
            r == (self@.poll.id == id && !direct && !ephemeral),
    {
        self.poll.id == id && prediction_mode_allows_display(direct, ephemeral)
    }

    /// The poll timer fired. A prediction that comes while no context reports its layout is not
    /// drawn.
    pub fn fire_prediction_poll(
        &mut self,
        id: usize,
        direct: bool,
        ephemeral: bool,
        layout_ctx: Option<usize>,
        outcome: Option<IpcPredictionOutcome>,
        now: u64,
    ) -> (r: PollStep)
        ensures
            old(self)@.polled(
                final(self)@,
                r,
                id,
                !direct && !ephemeral,
                layout_ctx,
                outcome,
                now,
            ),
    {
        if !self.poll.fire(id) {
            return PollStep::Nothing;
        }
        self.commit_edit_deadline = None;
        if !prediction_mode_allows_display(direct, ephemeral) {
            if self.prediction_ghost_visible() {
                return PollStep::Dismiss;
            }
            self.invalidate_prediction(Invalidation::ModeChanged);
            return PollStep::Nothing;
        }
        let at = Timestamp::from_millis(now);
        if let Some(outcome) = outcome {
            self.slot = false;
            return match outcome.result {
                IpcPredictionResult::Prediction(text) => {
                    let shown = self.state.on_result(outcome.seq, text.as_str(), at).is_some();
                    match layout_ctx {
                        Some(ctx) if shown => PollStep::Show { ctx },
                        _ => PollStep::Nothing,
                    }
                },
                _ => {
                    proof {
                        reveal_strlit("");
                    }
                    assert(""@ =~= Seq::<char>::empty());
                    let _ = self.state.on_result(outcome.seq, "", at);
                    PollStep::Nothing
                },
            };
        }
        if self.state.expire_pending(at) {
            self.slot = false;
            return PollStep::Nothing;
        }
        if self.slot {
            self.arm_prediction_poll(PREDICTION_POLL_MS);
            return PollStep::Nothing;
        }
        match self.state.poll(at) {
            Some(request) => {
                self.slot = true;
                PollStep::Ask(request)
            },
            None => {
                if self.state.has_activity() {
                    self.arm_prediction_poll(PREDICTION_POLL_MS);
                }
                PollStep::Nothing
            },
        }
    }

    /// The worker of a request was started or not.
    pub fn prediction_worker_spawned(&mut self, ok: bool)
        ensures
            final(self)@ == (if ok {
                old(self)@.polls_in(PREDICTION_POLL_MS)
            } else {
                old(self)@.invalidated(Invalidation::Disabled)
            }),
    {
        if ok {
            self.arm_prediction_poll(PREDICTION_POLL_MS);
        } else {
            self.invalidate_prediction(Invalidation::Disabled);
        }
    }

    /// Begins to draw the prediction at the caret: the text to draw, or nothing.
    pub fn show_prediction_ghost(&mut self, ctx: usize, facts: ShowFacts) -> (r: Option<String>)
        ensures
            match old(self)@.showing(ctx, facts) {
                Showing::Forget(reason) => r is None && final(self)@ == old(self)@.invalidated(
                    reason,
                ),
                Showing::Refuse => r is None && final(self)@ == (UiModel {
                    failed_context: Some(ctx),
                    ..old(self)@
                }).invalidated(Invalidation::Disabled),
                Showing::Nothing => r is None && final(self)@ == old(self)@,
                Showing::Draw(text) => r is Some && r->0@ == text && final(self)@ == (UiModel {
                    context: Some(ctx),
                    ..old(self)@
                }),
            },
    {
        if !prediction_mode_allows_display(facts.direct, facts.ephemeral) {
            self.invalidate_prediction(Invalidation::ModeChanged);
            return None;
        }
        let sink_matches_context = match facts.sink_context {
            Some(sink) => sink == ctx,
            None => false,
        };
        if !facts.edit_sink || !sink_matches_context {
            self.mark_prediction_tsf_failure_for(ctx);
            self.invalidate_prediction(Invalidation::Disabled);
            return None;
        }
        if !prediction_slot_available(self.composition.is_some(), self.finish_pending.is_some()) {
            self.invalidate_prediction(Invalidation::Input);
            return None;
        }
        if self.prediction_failed_for(ctx) || !facts.attribute || facts.busy || facts.password {
            return None;
        }
        let text = match self.state.ghost() {
            Some(ghost) => ghost.text.clone(),
            None => return None,
        };
        self.context = Some(ctx);
        Some(text)
    }

    /// The drawing was tried; `composition` is what stands in the document now.
    pub fn prediction_ghost_drawn(&mut self, ctx: usize, ok: bool, composition: Option<usize>)
     -> (r: bool)
        ensures
            r == (ok && composition is Some),
            final(self)@ == ({
                let drawn = UiModel { composition, ..old(self)@ };
                if r {
                    (UiModel { context: Some(ctx), ..drawn }).polls_in(PREDICTION_POLL_MS)
                } else {
                    let left = if composition is None {
                        UiModel { context: None, ..drawn }
                    } else {
                        (UiModel { finish_pending: Some(false), ..drawn }).retries(true)
                    };
                    (UiModel { failed_context: Some(ctx), ..left }).invalidated(Invalidation::Input)
                }
            }),
    {
        self.composition = composition;
        if ok && composition.is_some() {
            self.context = Some(ctx);
            self.arm_prediction_poll(PREDICTION_POLL_MS);
            return true;
        }
        if composition.is_none() {
            self.context = None;
        } else {
            self.finish_pending = Some(false);
            self.arm_prediction_finish_retry(true);
        }
        self.mark_prediction_tsf_failure_for(ctx);
        self.invalidate_prediction(Invalidation::Input);
        false
    }

    /// Begins to take the drawing away.
    pub fn request_finish_prediction_ghost(&mut self, accept: bool) -> (r: FinishStart)
        ensures
            r == old(self)@.finish_start(accept),
            final(self)@ == old(self)@.finishing(accept),
    {
        match self.context {
            None => FinishStart::Known(self.composition.is_none()),
            Some(context) => {
                self.finish_pending = Some(accept);
                FinishStart::Ask { context, accept }
            },
        }
    }

    /// The host answered the request to take the drawing away. A request that is carried out later
    /// only has to be taken.
    pub fn prediction_finish_reported(&mut self, report: FinishReport, asynchronous: bool) -> (r:
        bool)
        ensures
            r == (report.taken && (asynchronous || report.composition is None)),
            final(self)@ == old(self)@.reported(report),
    {
        self.composition = report.composition;
        self.context = report.context;
        self.finish_pending = report.finish_pending;
        self.failed_context = report.failed_context;
        report.taken && (asynchronous || report.composition.is_none())
    }

    /// The retry timer fired.
    pub fn fire_prediction_finish_retry(&mut self, id: usize) -> (r: RetryStep)
        ensures
            ({
                let fired = UiModel { retry: old(self)@.retry.fired(id), ..old(self)@ };
                let accept = old(self)@.finish_pending == Some(true);
                if old(self)@.retry.id != id {
                    r == RetryStep::Nothing && final(self)@ == old(self)@
                } else if old(self)@.composition is None {
                    r == RetryStep::Resume && final(self)@ == (UiModel {
                        retry_count: 0,
                        ..fired.cleaned()
                    })
                } else {
                    r == RetryStep::Finish(fired.finish_start(accept)) && final(self)@
                        == fired.finishing(accept)
                }
            }),
    {
        if !self.retry.fire(id) {
            return RetryStep::Nothing;
        }
        if self.composition.is_none() {
            self.context = None;
            self.finish_pending = None;
            self.retry_count = 0;
            return RetryStep::Resume;
        }
        let accept = match self.finish_pending {
            Some(accept) => accept,
            None => false,
        };
        RetryStep::Finish(self.request_finish_prediction_ghost(accept))
    }

    /// A try to take the drawing away ended. `true` lets the preedit and the keys that were put
    /// off go on.
    pub fn prediction_finish_retried(&mut self, done: bool, focused: Option<usize>) -> (r: bool)
        ensures
            r == done,
            final(self)@ == old(self)@.retried(done, focused),
    {
        if done {
            self.retry_count = 0;
            return true;
        }
        if self.prediction_owner_is_focused(focused) {
            self.mark_prediction_tsf_failure_for_owner(focused);
        }
        self.retry_count = self.retry_count.saturating_add(1);
        self.arm_prediction_finish_retry(false);
        false
    }

    /// Begins to take the prediction into the text, if one stands there.
    pub fn begin_accept_prediction_ghost(&mut self) -> (r: Option<FinishStart>)
        ensures
            r == (if old(self)@.ghost_visible() {
                Some(old(self)@.finish_start(true))
            } else {
                None
            }),
            final(self)@ == (if old(self)@.ghost_visible() {
                old(self)@.finishing(true)
            } else {
                old(self)@
            }),
    {
        if !self.prediction_ghost_visible() {
            return None;
        }
        Some(self.request_finish_prediction_ghost(true))
    }

    /// The prediction was taken into the text or not. One that the host refuses now is thrown
    /// away: later it would stand behind what was typed in the meantime.
    pub fn accept_prediction_ghost(&mut self, done: bool, focused: Option<usize>, now: u64) -> (r:
        bool)
        ensures
            r == (done && old(self)@.state.ghost_text is Some),
            !done ==> final(self)@ == (UiModel {
                finish_pending: Some(false),
                ..old(self)@
            }).refused_by_owner(focused).invalidated(Invalidation::Disabled).retries(true),
            done ==> exists|anchor: PredictionAnchor|
                #![trigger anchor.value()]
                anchor.value() == old(self)@.next_anchor() && final(self)@ == old(self)@.accepted(
                    anchor,
                    now,
                ),
    {
        if !done {
            self.finish_pending = Some(false);
            self.mark_prediction_tsf_failure_for_owner(focused);
            self.invalidate_prediction(Invalidation::Disabled);
            self.arm_prediction_finish_retry(true);
            return false;
        }
        let anchor = self.next_prediction_anchor();
        let accepted = self.state.accept_ghost(anchor, Timestamp::from_millis(now)).is_some();
        if accepted {
            self.arm_prediction_poll(PREDICTION_DEBOUNCE_MS);
        }
        assert(anchor.value() == old(self)@.next_anchor());
        accepted
    }

    /// Begins to wave the prediction away, if one stands there.
    pub fn begin_dismiss_prediction_ghost(&mut self) -> (r: Option<FinishStart>)
        ensures
            r == (if old(self)@.ghost_visible() {
                Some(old(self)@.finish_start(false))
            } else {
                None
            }),
            final(self)@ == (if old(self)@.ghost_visible() {
                old(self)@.finishing(false)
            } else {
                old(self)@
            }),
    {
        if !self.prediction_ghost_visible() {
            return None;
        }
        Some(self.request_finish_prediction_ghost(false))
    }

    /// The prediction was taken away or not. `suppress_same_context` does not ask again from the
    /// same text.
    pub fn dismiss_prediction_ghost(
        &mut self,
        done: bool,
        suppress_same_context: bool,
        focused: Option<usize>,
    ) -> (r: bool)
        ensures
            r == done,
            final(self)@ == (if !done {
                old(self)@.refused_by_owner(focused).invalidated(Invalidation::Disabled).retries(
                    true,
                )
            } else if suppress_same_context {
                old(self)@.dismissed()
            } else {
                old(self)@.invalidated(Invalidation::Input)
            }),
    {
        if !done {
            self.mark_prediction_tsf_failure_for_owner(focused);
            self.invalidate_prediction(Invalidation::Disabled);
            self.arm_prediction_finish_retry(true);
            return false;
        }
        if suppress_same_context {
            let _ = self.state.dismiss_ghost();
        } else {
            self.invalidate_prediction(Invalidation::Input);
        }
        true
    }

    /// The document changed under the prediction: it is forgotten, and its drawing, if there is
    /// one, is taken away when the host is ready.
    pub fn invalidate_prediction_after_external_edit(&mut self) -> (r: Option<FinishStart>)
        ensures
            ({
                let quiet = old(self)@.invalidated(Invalidation::SelectionChanged);
                if quiet.ghost_visible() {
                    r == Some(quiet.finish_start(false)) && final(self)@ == quiet.finishing(false)
                } else {
                    r is None && final(self)@ == (UiModel { context: None, ..quiet })
                }
            }),
    {
        self.invalidate_prediction(Invalidation::SelectionChanged);
        if !self.prediction_ghost_visible() {
            self.context = None;
            return None;
        }
        Some(self.request_finish_prediction_ghost(false))
    }

    /// The host took that request or not. Either way the end of the drawing is watched.
    pub fn external_edit_finished(&mut self, taken: bool, focused: Option<usize>)
        ensures
            final(self)@ == (if taken {
                old(self)@
            } else {
                old(self)@.refused_by_owner(focused)
            }).retries(true),
    {
        if !taken {
            self.mark_prediction_tsf_failure_for_owner(focused);
        }
        self.arm_prediction_finish_retry(true);
    }

    /// The place of the prediction is left: everything that was put off or predicted is forgotten.
    pub fn begin_abandon_prediction(&mut self, reason: Invalidation) -> (r: Option<FinishStart>)
        ensures
            ({
                let left = (UiModel { deferred: Seq::empty(), ..old(self)@ }).invalidated(reason);
                if left.ghost_visible() {
                    r == Some(left.finish_start(false)) && final(self)@ == left.finishing(false)
                } else {
                    r is None && final(self)@ == left
                }
            }),
    {
        self.deferred.clear();
        self.invalidate_prediction(reason);
        if !self.prediction_ghost_visible() {
            return None;
        }
        Some(self.request_finish_prediction_ghost(false))
    }

    /// The drawing that stood there, if any, was taken away or not.
    pub fn abandon_prediction_for_context_change(
        &mut self,
        done: Option<bool>,
        focused: Option<usize>,
    ) -> (r: bool)
        ensures
            r == (done != Some(false)),
            final(self)@ == (if r {
                old(self)@.cleaned().retries_no_more()
            } else {
                old(self)@.refused_by_owner(focused).retries(true)
            }),
    {
        let refused = match done {
            Some(done) => !done,
            None => false,
        };
        if refused {
            self.mark_prediction_tsf_failure_for_owner(focused);
            self.arm_prediction_finish_retry(true);
            return false;
        }
        self.context = None;
        self.finish_pending = None;
        self.disarm_prediction_finish_retry();
        true
    }
}

/// A drawing that the host does not let go is tried a bounded number of times: after a failed try
/// a timer is set only while the count is below the limit, and the count goes up each time.
pub proof fn taking_a_drawing_away_is_tried_a_bounded_number_of_times(
    ui: UiModel,
    focused: Option<usize>,
)
    requires
        ui.composition is Some,
        !ui.retry.pending(),
    ensures
        ui.retried(false, focused).retry.pending() <==> ui.retry_count + 1 < PREDICTION_RETRY_MAX,
        ui.retry_count < PREDICTION_RETRY_MAX ==> ui.retried(false, focused).retry_count
            == ui.retry_count + 1,
{
}

/// A drawing begins only where none stands and none is being taken away, in the context whose
/// edits are reported, and in a mode that allows it.
pub proof fn a_drawing_needs_a_free_place(ui: UiModel, ctx: usize, facts: ShowFacts)
    requires
        ui.showing(ctx, facts) is Draw,
    ensures
        ui.composition is None,
        ui.finish_pending is None,
        ui.failed_context != Some(ctx),
        facts.sink_context == Some(ctx),
        !facts.direct && !facts.ephemeral && !facts.busy && !facts.password,
{
}

/// Once the place is left, nothing of the prediction is left over: neither its state nor a worker
/// nor a key that was put off, and for every change of place not even the text before it.
pub proof fn a_left_place_is_forgotten(ui: UiModel, reason: Invalidation)
    ensures
        ({
            let left = (UiModel { deferred: Seq::empty(), ..ui }).invalidated(reason);
            &&& !left.state.active()
            &&& !left.slot
            &&& left.deferred.len() == 0
            &&& left.commit_edit_deadline is None
            &&& reason != Invalidation::Input ==> !left.state.private()
        }),
{
}

/// A commit is predicted from together with all before it. The context is the last 256 characters
/// of what was committed before and the text; where that is 8 characters or more, the engine is
/// asked 300 milliseconds later, else not at all. Nobody waits for an earlier answer, the place has
/// a name of its own, and one edit is expected meanwhile. The drawing is not touched.
pub proof fn a_commit_is_predicted_from_with_all_before_it(
    ui: UiModel,
    source: CommitSource,
    text: Seq<char>,
    anchor: PredictionAnchor,
    now: u64,
)
    requires
        now + 300 <= u64::MAX,
        source is Enter || source is Candidate || source is Clause || source is AcceptedPrediction,
    ensures
        ({
            let after = ui.committed(source, text, anchor, now);
            let grown = crate::text::tail(ui.state.context + text, 256);
            &&& after.state.context == grown
            &&& grown.len() >= 8 ==> after.state.debounce == Some(((now + 300) as u64, anchor))
            &&& grown.len() >= 8 ==> after.poll.wanted == Some(300u32)
            &&& grown.len() < 8 ==> after.state.debounce is None && !after.poll.pending()
            &&& after.state.pending is None && after.state.ghost_text is None
            &&& !after.slot
            &&& after.commit_edit_deadline == Some((now + 300) as u64)
            &&& ui.anchor_gen < u64::MAX ==> after.anchor_gen == ui.anchor_gen + 1
            &&& after.enabled == ui.enabled && after.composition == ui.composition
            &&& after.context == ui.context && after.finish_pending == ui.finish_pending
            &&& after.failed_context == ui.failed_context && after.retry == ui.retry
            &&& after.retry_count == ui.retry_count && after.deferred == ui.deferred
        }),
{
}

/// Two commits in one place are one context, and its end is what the engine is asked from.
pub proof fn commits_in_one_place_add_up(
    ui: UiModel,
    first: Seq<char>,
    second: Seq<char>,
    a: PredictionAnchor,
    b: PredictionAnchor,
    at: u64,
    now: u64,
)
    requires
        now + 300 <= u64::MAX,
    ensures
        ({
            let after = ui.committed(CommitSource::Enter, first, a, at).committed(
                CommitSource::Enter,
                second,
                b,
                now,
            );
            &&& after.state.context == crate::text::tail(ui.state.context + first + second, 256)
            &&& after.state.context.len() >= 8 ==> after.state.due((now + 300) as u64)
                && after.state.request_at((now + 300) as u64).context == after.state.context
        }),
{
    crate::text::a_tail_of_a_tail_is_a_tail(ui.state.context + first, second, 256);
}

/// A prediction that the user takes is committed like any other text: the context grows by it, it
/// is not shown any more, and the next one is asked for after the usual pause.
pub proof fn an_accepted_prediction_is_a_commit(
    ui: UiModel,
    anchor: PredictionAnchor,
    now: u64,
)
    requires
        now + 300 <= u64::MAX,
    ensures
        ui.state.ghost_text is Some ==> ({
            let after = ui.accepted(anchor, now);
            let grown = crate::text::tail(ui.state.context + ui.state.ghost_text->0.text, 256);
            &&& after.state.context == grown
            &&& after.state.ghost_text is None && after.state.pending is None
            &&& grown.len() >= 8 ==> after.state.debounce == Some(((now + 300) as u64, anchor))
            &&& grown.len() < 8 ==> after.state.debounce is None
            &&& after.state.suppressed is None
            &&& after.poll.wanted == Some(300u32)
        }),
        ui.state.ghost_text is None ==> ui.accepted(anchor, now).state == ui.state && ui.accepted(
            anchor,
            now,
        ).poll == ui.poll,
        ui.anchor_gen < u64::MAX ==> ui.accepted(anchor, now).anchor_gen == ui.anchor_gen + 1,
        ui.accepted(anchor, now).composition == ui.composition,
        ui.accepted(anchor, now).context == ui.context,
        ui.accepted(anchor, now).finish_pending == ui.finish_pending,
        ui.accepted(anchor, now).failed_context == ui.failed_context,
{
}

/// A prediction that the user waves away is not shown any more, and the same context is not asked
/// from again; the context itself stays, so the next commit is predicted from as ever.
pub proof fn a_dismissed_prediction_is_not_asked_for_again(ui: UiModel, now: u64)
    ensures
        ui.state.ghost_text is Some ==> {
            &&& ui.dismissed().state.ghost_text is None
            &&& ui.dismissed().state.suppressed == Some(ui.state.context)
            &&& !ui.dismissed().state.due(now)
        },
        ui.state.ghost_text is None ==> ui.dismissed() == ui,
        ui.dismissed().state.context == ui.state.context,
        ui.dismissed().poll == ui.poll && ui.dismissed().slot == ui.slot,
        ui.dismissed().composition == ui.composition,
{
}

/// What a poll does. A timer that was replaced changes nothing. A prediction that is waited for and
/// comes in time is shown, where a context reports its layout; no other is. Without an answer the
/// engine is asked once the pause is over, with the whole context, and looked at again every 15
/// milliseconds as long as something is under way.
pub proof fn a_poll_asks_and_shows(
    ui: UiModel,
    after: UiModel,
    step: PollStep,
    id: usize,
    allowed: bool,
    layout_ctx: Option<usize>,
    outcome: Option<IpcPredictionOutcome>,
    now: u64,
)
    requires
        ui.polled(after, step, id, allowed, layout_ctx, outcome, now),
        now + 400 <= u64::MAX,
        ui.state.next_seq < u64::MAX,
    ensures
        ui.poll.id != id ==> after == ui && step is Nothing,
        ui.poll.id == id ==> after.commit_edit_deadline is None,
        !allowed ==> !(step is Show) && !(step is Ask),
        ui.poll.id == id && !allowed && ui.composition is Some ==> step is Dismiss && after.state
            == ui.state,
        ui.poll.id == id && !allowed && ui.composition is None ==> step is Nothing
            && !after.state.active() && after.state.context.len() == 0 && !after.slot,
        step is Dismiss ==> !allowed && ui.composition is Some,
        step matches PollStep::Show { ctx } ==> {
            &&& layout_ctx == Some(ctx)
            &&& outcome is Some && outcome->0.result is Prediction
            &&& ui.state.pending is Some && ui.state.pending->0.seq == outcome->0.seq
            &&& now <= ui.state.pending->0.deadline
            &&& after.state.ghost_text is Some
            &&& after.state.ghost_text->0.text == crate::text::head(
                outcome->0.result->Prediction_0@,
                16,
            )
        },
        ui.poll.id == id && allowed && layout_ctx is Some && outcome is Some && (
        outcome->0.result matches IpcPredictionResult::Prediction(text) && text@.len() >= 2)
            && ui.state.pending is Some && ui.state.pending->0.seq == outcome->0.seq && now
            <= ui.state.pending->0.deadline ==> step == (PollStep::Show { ctx: layout_ctx->0 }),
        ui.poll.id == id && allowed && outcome is Some ==> !after.slot && !(step is Ask)
            && after.state.context == ui.state.context,
        step matches PollStep::Ask(request) ==> {
            &&& request@.context == ui.state.context
            &&& request@.seq == ui.state.next_seq + 1
            &&& request@.deadline == now + 400
            &&& after.slot && !ui.slot
            &&& after.state.pending is Some && after.state.pending->0.seq == request@.seq
        },
        ui.poll.id == id && allowed && outcome is None && !ui.slot && ui.state.pending is None
            && ui.state.debounce is Some && (ui.state.debounce->0).0 <= now && ui.state.suppressed
            != Some(ui.state.context) ==> step is Ask,
        ui.poll.id == id && allowed && outcome is None && ui.state.pending is Some
            && ui.state.pending->0.deadline < now ==> !after.slot && after.state.pending is None,
        ui.poll.id == id && allowed && outcome is None && ui.slot && !(ui.state.pending is Some
            && ui.state.pending->0.deadline < now) ==> after.poll.wanted == Some(15u32) && after.slot
            && after.state == ui.state,
        after.composition == ui.composition && after.context == ui.context,
        after.failed_context == ui.failed_context && after.finish_pending == ui.finish_pending,
        after.deferred == ui.deferred && after.anchor_gen == ui.anchor_gen,
{
}

/// A prediction is drawn exactly where nothing speaks against it, and what is drawn is what is
/// predicted.
pub proof fn a_prediction_is_drawn_where_nothing_speaks_against_it(
    ui: UiModel,
    ctx: usize,
    facts: ShowFacts,
)
    ensures
        ui.showing(ctx, facts) is Draw <==> {
            &&& !facts.direct && !facts.ephemeral
            &&& facts.edit_sink && facts.sink_context == Some(ctx)
            &&& ui.composition is None && ui.finish_pending is None
            &&& ui.failed_context != Some(ctx)
            &&& facts.attribute && !facts.busy && !facts.password
            &&& ui.state.ghost_text is Some
        },
        ui.showing(ctx, facts) matches Showing::Draw(text) ==> text
            == ui.state.ghost_text->0.text,
        facts.direct || facts.ephemeral ==> ui.showing(ctx, facts) == Showing::Forget(
            Invalidation::ModeChanged,
        ),
        ui.showing(ctx, facts) is Refuse <==> !facts.direct && !facts.ephemeral && !(facts.edit_sink
            && facts.sink_context == Some(ctx)),
{
}

/// A drawing is taken away in the context that it stands in, with its text or without, as asked;
/// without a context there is nothing to ask.
pub proof fn a_drawing_is_taken_away_where_it_stands(ui: UiModel, accept: bool, report: FinishReport)
    ensures
        ui.context is Some ==> ui.finish_start(accept) == (FinishStart::Ask {
            context: ui.context->0,
            accept,
        }) && ui.finishing(accept).finish_pending == Some(accept),
        ui.context is None ==> ui.finish_start(accept) == FinishStart::Known(
            ui.composition is None,
        ) && ui.finishing(accept) == ui,
        ui.finishing(accept).composition == ui.composition,
        ui.finishing(accept).state == ui.state,
        ui.finishing(accept).context == ui.context,
        ui.reported(report).composition == report.composition,
        ui.reported(report).context == report.context,
        ui.reported(report).finish_pending == report.finish_pending,
        ui.reported(report).failed_context == report.failed_context,
        ui.reported(report).state == ui.state && ui.reported(report).poll == ui.poll,
        ui.ghost_visible() <==> ui.composition is Some,
        ui.cleanup_in_progress() <==> ui.composition is Some && ui.finish_pending is Some,
{
}

/// A drawing that could not be taken away is tried again 50 milliseconds later, 8 times at most; a
/// key starts the count anew. Once there is nothing to take away and no key waits, no timer is left.
pub proof fn an_unfinished_drawing_is_tried_again(ui: UiModel, reset: bool, focused: Option<usize>)
    ensures
        ui.composition is None && ui.deferred.len() == 0 ==> {
            let after = ui.retries(reset);
            &&& !after.retry.pending() && after.retry_count == 0
            &&& after.context is None && after.finish_pending is None
        },
        !(ui.composition is None && ui.deferred.len() == 0) && !ui.retry.pending() && (reset
            || ui.retry_count < 8) ==> ui.retries(reset).retry.wanted == Some(50u32),
        !(ui.composition is None && ui.deferred.len() == 0) && !ui.retry.pending() && !reset
            && ui.retry_count >= 8 ==> !ui.retries(reset).retry.pending(),
        ui.retry.pending() && !(ui.composition is None && ui.deferred.len() == 0) ==> ui.retries(
            reset,
        ).retry == ui.retry,
        reset ==> ui.retries(reset).retry_count == 0,
        !reset && !(ui.composition is None && ui.deferred.len() == 0) ==> ui.retries(
            reset,
        ).retry_count == ui.retry_count,
        ui.retries(reset).state == ui.state && ui.retries(reset).composition == ui.composition,
        ui.retries(reset).deferred == ui.deferred,
        ui.retries_no_more().retry_count == 0 && !ui.retries_no_more().retry.pending(),
        ui.retries_no_more().state == ui.state && ui.retries_no_more().context == ui.context,
        ui.cleaned().context is None && ui.cleaned().finish_pending is None,
        ui.cleaned().state == ui.state && ui.cleaned().composition == ui.composition,
        ui.retried(true, focused) == (UiModel { retry_count: 0, ..ui }),
        ui.retried(false, focused).state == ui.state,
        ui.retried(false, focused).composition == ui.composition,
        ui.composition is Some && ui.context is Some && ui.context == focused ==> ui.retried(
            false,
            focused,
        ).failed_context == ui.context,
        ui.composition is Some && ui.context != focused ==> ui.retried(
            false,
            focused,
        ).failed_context == ui.failed_context,
{
}

/// A context that refused is remembered: that of the drawing first, else the focused one.
pub proof fn the_context_of_the_drawing_refused(ui: UiModel, focused: Option<usize>)
    ensures
        ui.context is Some ==> ui.refused_by_owner(focused).failed_context == ui.context,
        ui.context is None && focused is Some ==> ui.refused_by_owner(focused).failed_context
            == focused,
        ui.context is None && focused is None ==> ui.refused_by_owner(focused) == ui,
        ui.refused_by_owner(focused).state == ui.state,
        ui.refused_by_owner(focused).composition == ui.composition,
        ui.refused_by_owner(focused).context == ui.context,
        or_else(ui.context, focused) is None <==> ui.context is None && focused is None,
{
}

/// What ends a prediction leaves its drawing alone, which has to be taken away first: only the
/// prediction, the wait for a worker and the expected edit are over.
pub proof fn an_ended_prediction_leaves_its_drawing(ui: UiModel, reason: Invalidation)
    ensures
        ({
            let after = ui.invalidated(reason);
            &&& !after.slot && after.commit_edit_deadline is None
            &&& !after.state.active()
            &&& reason is Input ==> after.state.context == ui.state.context
            &&& !(reason is Input) ==> after.state.context.len() == 0
            &&& after.composition == ui.composition && after.context == ui.context
            &&& after.finish_pending == ui.finish_pending && after.retry == ui.retry
            &&& after.retry_count == ui.retry_count && after.poll == ui.poll
            &&& after.failed_context == ui.failed_context && after.deferred == ui.deferred
            &&& after.enabled == ui.enabled && after.anchor_gen == ui.anchor_gen
        }),
        ui.polls_in(15).poll.wanted == Some(15u32) && ui.polls_in(15).state == ui.state,
        !ui.polls_no_more().poll.pending() && ui.polls_no_more().state == ui.state,
        ui.anchor_gen < u64::MAX ==> ui.next_anchor() == ui.anchor_gen + 1,
{
}

/// Nothing is predicted or drawn at first, and predictions are off.
pub proof fn nothing_is_predicted_at_first()
    ensures
        ({
            let first = UiModel::initial();
            &&& first.state == PredictionModel::initial()
            &&& !first.enabled && !first.slot
            &&& first.composition is None && first.context is None && first.failed_context is None
            &&& first.finish_pending is None && !first.retry.pending() && first.retry_count == 0
            &&& !first.poll.pending() && first.commit_edit_deadline is None
            &&& first.anchor_gen == 0 && first.deferred.len() == 0
        }),
{
}

/// Each step touches its own part: the prediction, the look for an answer, the tries, the drawing.
pub proof fn each_step_keeps_the_other_parts(
    ui: UiModel,
    reason: Invalidation,
    source: CommitSource,
    text: Seq<char>,
    anchor: PredictionAnchor,
    delay_ms: u32,
    focused: Option<usize>,
    reset: bool,
    report: FinishReport,
    now: u64,
)
    ensures
        ui.invalidated(reason) == (UiModel {
            commit_edit_deadline: None,
            slot: false,
            state: ui.state.after_invalidation(reason),
            ..ui
        }),
        ui.polls_in(delay_ms) == (UiModel { poll: ui.polls_in(delay_ms).poll, ..ui }),
        ui.polls_no_more() == (UiModel { poll: ui.polls_no_more().poll, ..ui }),
        ui.refused_by_owner(focused) == (UiModel {
            failed_context: ui.refused_by_owner(focused).failed_context,
            ..ui
        }),
        ui.retries_no_more() == (UiModel {
            retry: ui.retries_no_more().retry,
            retry_count: 0,
            ..ui
        }),
        !ui.retries_no_more().retry.pending(),
        ui.cleaned() == (UiModel { context: None, finish_pending: None, ..ui }),
        ({
            let after = ui.retries(reset);
            &&& after == (UiModel {
                retry: after.retry,
                retry_count: after.retry_count,
                context: after.context,
                finish_pending: after.finish_pending,
                ..ui
            })
            &&& ui.composition is Some || ui.deferred.len() > 0 ==> after.context == ui.context
                && after.finish_pending == ui.finish_pending && after.retry_count == (if reset {
                0
            } else {
                ui.retry_count
            })
        }),
        ({
            let after = ui.committed(source, text, anchor, now);
            after == (UiModel {
                slot: false,
                anchor_gen: after.anchor_gen,
                state: after.state,
                commit_edit_deadline: after.commit_edit_deadline,
                poll: after.poll,
                ..ui
            })
        }),
        ui.finishing(reset) == (UiModel { finish_pending: ui.finishing(reset).finish_pending, ..ui }),
        ui.context is Some ==> ui.finishing(reset).finish_pending == Some(reset),
        ui.context is None ==> ui.finishing(reset) == ui,
        ui.reported(report) == (UiModel {
            composition: report.composition,
            context: report.context,
            finish_pending: report.finish_pending,
            failed_context: report.failed_context,
            ..ui
        }),
        ({
            let after = ui.retried(reset, focused);
            &&& after == (UiModel {
                retry: after.retry,
                retry_count: after.retry_count,
                context: after.context,
                finish_pending: after.finish_pending,
                failed_context: after.failed_context,
                ..ui
            })
            &&& reset ==> after == (UiModel { retry_count: 0, ..ui })
        }),
        ({
            let after = ui.accepted(anchor, now);
            after == (UiModel {
                anchor_gen: after.anchor_gen,
                state: after.state,
                poll: after.poll,
                ..ui
            })
        }),
        ({
            let after = ui.dismissed();
            &&& after == (UiModel { state: after.state, ..ui })
            &&& after.state == (PredictionModel {
                ghost_text: None,
                suppressed: after.state.suppressed,
                ..ui.state
            })
            &&& ui.state.ghost_text is None ==> after == ui
        }),
{
}

/// A look for an answer touches the prediction, the look itself and the tail of the commit; the
/// drawing, its tries and the keys that wait stay as they are.
pub proof fn a_poll_keeps_the_drawing(
    ui: UiModel,
    after: UiModel,
    step: PollStep,
    id: usize,
    mode_allows: bool,
    layout_ctx: Option<usize>,
    outcome: Option<IpcPredictionOutcome>,
    now: u64,
)
    requires
        ui.polled(after, step, id, mode_allows, layout_ctx, outcome, now),
    ensures
        after == (UiModel {
            state: after.state,
            slot: after.slot,
            poll: after.poll,
            commit_edit_deadline: after.commit_edit_deadline,
            ..ui
        }),
        ui.poll.id == id ==> after.commit_edit_deadline is None,
        ui.poll.id != id ==> after == ui && step is Nothing,
        ui.poll.id == id && mode_allows && outcome is None && ui.state.pending is Some
            && ui.state.pending->0.deadline < now ==> !after.slot && step is Nothing && after.state
            == (PredictionModel { pending: None, ..ui.state }),
{
}

/// Accepting commits the shown text and nothing else: with no other question under way the numbers
/// of the questions go on from where they were.
pub proof fn an_accepted_text_is_committed_once(ui: UiModel, anchor: PredictionAnchor, now: u64)
    ensures
        ui.state.ghost_text is Some && ui.state.pending is None && ui.state.debounce is None ==> {
            let after = ui.accepted(anchor, now);
            &&& after.state.next_seq == ui.state.next_seq
            &&& after.state.ghost_text is None && after.state.pending is None
            &&& after.state.suppressed is None
        },
        ui.state.ghost_text is None ==> ui.accepted(anchor, now).state == ui.state,
{
}

/// The timers go with the prediction: a question is looked for once it may be asked, and an answer
/// as long as it may come.
pub proof fn the_timers_go_with_the_prediction()
    ensures
        PREDICTION_DEBOUNCE_MS == 300 && PREDICTION_TIMEOUT_MS == 400 && PREDICTION_POLL_MS == 15,
        PREDICTION_DEBOUNCE_MS == crate::prediction_state::DEBOUNCE_MS,
        PREDICTION_TIMEOUT_MS == crate::prediction_state::DEADLINE_MS,
        PREDICTION_RETRY_MS == 50 && PREDICTION_RETRY_MAX == 8,
{
}

/// Where a drawing stands already, or is being taken away, the prediction is forgotten as by typing:
/// what was committed is kept. Another mode forgets that too.
pub proof fn a_second_drawing_forgets_only_the_prediction(ui: UiModel, ctx: usize, facts: ShowFacts)
    ensures
        facts.direct || facts.ephemeral ==> ui.showing(ctx, facts) == Showing::Forget(
            Invalidation::ModeChanged,
        ),
        ui.showing(ctx, facts) matches Showing::Forget(reason) ==> reason == Invalidation::ModeChanged
            || reason == Invalidation::Input,
        !facts.direct && !facts.ephemeral && facts.edit_sink && facts.sink_context == Some(ctx) && (
        ui.composition is Some || ui.finish_pending is Some) ==> ui.showing(ctx, facts)
            == Showing::Forget(Invalidation::Input),
        ui.invalidated(Invalidation::Input).state.context == ui.state.context,
        ui.invalidated(Invalidation::ModeChanged).state.context.len() == 0,
{
}

} // verus!
