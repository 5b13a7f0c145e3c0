//! What the host tells: that a document changed, that a composition ended, that the focus moved.

use vstd::prelude::*;
use vstd::string::*;
use crate::prediction_state::Invalidation;
use crate::text_service::composition::CompositionState;
use crate::text_service::engine_link::EngineLink;
use crate::text_service::layout::{LayoutQuery, LayoutState};
use crate::text_service::lifecycle::{should_abandon_on_focus_change, TextService};
use crate::text_service::mode::ModeState;
use crate::text_service::prediction_ui::{
    consume_expected_prediction_commit_end_edit, or_else, FinishStart, UiModel,
};
use crate::text_service::reconvert::disarmed;

verus! {

/// What follows an edit of the document.
#[derive(Clone, Copy, Debug, PartialEq, Eq, Structural)]
pub enum EndEditStep {
    Nothing,
    /// The edit is the tail of the last commit.
    Settled,
    /// The prediction is gone. Its drawing, if there is one, is taken away when the host is ready.
    Invalidated { finish: Option<FinishStart> },
}

/// What follows the end of a composition.
#[derive(Clone, Copy, Debug, PartialEq, Eq, Structural)]
pub enum TerminatedStep {
    /// The drawing of a prediction ended.
    Prediction,
    /// It is another composition's end.
    Stale,
    /// It is the end of an earlier generation.
    StaleGeneration,
    /// The owed close is done. Where nothing goes on, kana for a while end in the context that
    /// owned it.
    Closed { idle: bool, owner: Option<usize> },
    /// The service itself is committing a part of it.
    PartialCommit,
    /// The host ended it: it is left to the host.
    Abandon,
}

/// The engine once a composition was left to the host.
#[derive(Clone, Copy, Debug, PartialEq, Eq, Structural)]
pub enum AbandonEngine {
    /// The connection was lent out and is lost.
    Dropped,
    /// The session has to be ended.
    EndSession,
}

/// What follows a moved focus.
#[derive(Clone, Copy, Debug, PartialEq, Eq, Structural)]
pub struct FocusStep {
    /// The composition is left to the host.
    pub abandon: bool,
    /// The focus is elsewhere: kana for a while end.
    pub elsewhere: bool,
}

impl UiModel {
    /// The drawing ended. Keys that were put off still wait for their turn.
    pub open spec fn terminated(self, internal: bool) -> UiModel {
        let gone = UiModel { composition: None, context: None, finish_pending: None, ..self };
        let quiet = if self.deferred.len() == 0 {
            gone.retries_no_more()
        } else {
            gone.retries(false)
        };
        if internal {
            quiet
        } else {
            quiet.invalidated(Invalidation::Input)
        }
    }

    /// Something of the prediction belongs to the field that had the focus.
    pub open spec fn belongs_to_field(self) -> bool {
        self.state.private() || self.ghost_visible() || self.failed_context is Some
    }
}

impl TextService {
    /// Input is under way: a session is open or something is composed.
    pub open spec fn has_active_input(self) -> bool {
        self.link.session != 0 || self.comp.composition is Some
    }

    /// The document was edited. The service's own edits do not count, nor the tail of its last
    /// commit; any other edit ends the prediction.
    pub fn on_end_edit(&mut self, own_write: bool, selection_changed: bool, now: u64) -> (r:
        EndEditStep)
        ensures
            ({
                let ui = old(self).prediction@;
                let used = UiModel { commit_edit_deadline: None, ..ui };
                let quiet = used.invalidated(Invalidation::SelectionChanged);
                if old(self).prediction_editing || own_write || !(ui.state.private()
                    || ui.ghost_visible()) {
                    r == EndEditStep::Nothing && final(self).prediction@ == ui
                } else if ui.commit_edit_deadline is Some && !selection_changed && now
                    <= ui.commit_edit_deadline->0 {
                    r == EndEditStep::Settled && final(self).prediction@ == used
                } else if ui.ghost_visible() {
                    &&& r == (EndEditStep::Invalidated {
                        finish: Some(quiet.finish_start(false)),
                    })
                    &&& final(self).prediction@ == quiet.finishing(false)
                } else {
                    &&& r == (EndEditStep::Invalidated { finish: None })
                    &&& final(self).prediction@ == (UiModel { context: None, ..quiet })
                }
            }),
            *final(self) == (TextService { prediction: final(self).prediction, ..*old(self) }),
    {
        if self.prediction_editing || own_write {
            return EndEditStep::Nothing;
        }
        if !self.prediction.state.has_private_state() && !self.prediction.prediction_ghost_visible() {
            return EndEditStep::Nothing;
        }
        if consume_expected_prediction_commit_end_edit(
            &mut self.prediction.commit_edit_deadline,
            selection_changed,
            now,
        ) {
            return EndEditStep::Settled;
        }
        EndEditStep::Invalidated {
            finish: self.prediction.invalidate_prediction_after_external_edit(),
        }
    }

    /// A composition ended. One that really started begins its lifecycle first. Only the current
    /// one counts: a composition that was left to the host may end long after another one began.
    pub fn on_composition_terminated(&mut self, terminated: Option<usize>) -> (r: TerminatedStep)
        ensures
            ({
                let s = TextService { comp: old(self).comp.noticed(), ..*old(self) };
                let comp = s.comp;
                let idle = !s.conv@.composing && !s.conv@.showing;
                if terminated is Some && s.prediction@.composition == terminated {
                    &&& r == TerminatedStep::Prediction
                    &&& final(self).prediction@ == s.prediction@.terminated(s.prediction_editing)
                    &&& *final(self) == (TextService { prediction: final(self).prediction, ..s })
                } else if terminated is None || comp.composition != terminated {
                    r == TerminatedStep::Stale && *final(self) == s
                } else if comp.composition_end_pending && comp.pending_end_generation
                    != comp.composition_generation {
                    r == TerminatedStep::StaleGeneration && *final(self) == s
                } else if comp.composition_end_pending {
                    &&& r == (TerminatedStep::Closed { idle, owner: comp.composition_end_context })
                    &&& final(self).comp == (if idle {
                        comp.closed_by_host().without_redraw()
                    } else if comp.partial_preedit_redraw_pending {
                        CompositionState {
                            partial_preedit_redraw_retries: 0,
                            ..comp.closed_by_host()
                        }
                    } else {
                        comp.closed_by_host()
                    })
                    &&& final(self).conv@ == (if !idle && comp.partial_preedit_redraw_pending {
                        s.conv@.waits_for_pause(true)
                    } else {
                        s.conv@
                    })
                    &&& *final(self) == (TextService {
                        comp: final(self).comp,
                        conv: final(self).conv,
                        ..s
                    })
                } else if s.partial_committing {
                    r == TerminatedStep::PartialCommit && *final(self) == s
                } else {
                    r == TerminatedStep::Abandon && *final(self) == s
                }
            }),
    {
        self.comp.consume_started_composition();
        let id = match terminated {
            Some(id) => id,
            None => return TerminatedStep::Stale,
        };
        let is_prediction = match self.prediction.composition {
            Some(current) => current == id,
            None => false,
        };
        if is_prediction {
            self.prediction.ghost_terminated(self.prediction_editing);
            return TerminatedStep::Prediction;
        }
        let is_current = match self.comp.composition {
            Some(current) => current == id,
            None => false,
        };
        if !is_current {
            return TerminatedStep::Stale;
        }
        if self.comp.composition_end_pending {
            if !self.comp.pending_end_generation_is_current() {
                return TerminatedStep::StaleGeneration;
            }
            let owner = self.comp.close_by_host();
            let idle = !self.conv.composing && !self.conv.showing;
            if idle {
                self.comp.forget_redraw();
            } else if self.comp.partial_preedit_redraw_pending {
                self.comp.partial_preedit_redraw_retries = 0;
                self.conv.arm_debounce(true);
            }
            return TerminatedStep::Closed { idle, owner };
        }
        if self.partial_committing {
            return TerminatedStep::PartialCommit;
        }
        TerminatedStep::Abandon
    }

    /// The layout changed. A query is wanted while candidates or the reading are shown, one at a
    /// time.
    pub fn on_layout_change(&mut self, monitor_visible: bool) -> (r: Option<LayoutQuery>)
        ensures
            ({
                let layout = old(self).layout;
                &&& r == (if (old(self).conv@.showing || monitor_visible) && !layout.refresh_pending {
                    match layout.sink_ctx {
                        Some(ctx) => Some(LayoutQuery { ctx, gen: layout.gen }),
                        None => None,
                    }
                } else {
                    None
                })
                &&& *final(self) == (TextService {
                    comp: old(self).comp.noticed(),
                    layout: LayoutState {
                        refresh_pending: layout.refresh_pending || r is Some,
                        ..layout
                    },
                    ..*old(self)
                })
            }),
    {
        self.comp.consume_started_composition();
        self.layout.on_layout_change(self.conv.showing || monitor_visible)
    }

    /// Leaves the composition to the host, which has committed or dropped its text: only the
    /// service's own state is cleared. Kana for a while end next, and the popups are closed.
    pub fn reset_abandoned_composition(&mut self) -> (r: AbandonEngine)
        ensures
            r == (if old(self).conv@.awaiting_llm {
                AbandonEngine::Dropped
            } else {
                AbandonEngine::EndSession
            }),
            final(self).comp == old(self).comp.abandoned(),
            final(self).conv@ == old(self).conv@.abandoned(),
            final(self).conv@.wf(),
            r == AbandonEngine::Dropped ==> final(self).link.pipe_name@.len() == 0
                && final(self).link == (EngineLink {
                pipe_name: final(self).link.pipe_name,
                ..old(self).link.dropped()
            }),
            r == AbandonEngine::EndSession ==> final(self).link == old(self).link,
            *final(self) == (TextService {
                comp: final(self).comp,
                conv: final(self).conv,
                link: final(self).link,
                ..*old(self)
            }),
    {
        let was_awaiting_llm = self.conv.awaiting_llm;
        self.comp.abandon();
        self.conv.abandon();
        if was_awaiting_llm {
            self.link.pipe_name = String::new();
            self.link.drop_engine();
            AbandonEngine::Dropped
        } else {
            AbandonEngine::EndSession
        }
    }

    /// Another context was pushed or popped: what is known of the old one does not hold any more.
    /// The drawing of a prediction is taken away next, then the focused context is looked up.
    pub fn on_context_stack_changed(&mut self) -> (r: Option<FinishStart>)
        ensures
            ({
                let left = (UiModel {
                    deferred: Seq::empty(),
                    ..old(self).prediction@
                }).invalidated(Invalidation::FocusChanged);
                &&& r == (if left.ghost_visible() {
                    Some(left.finish_start(false))
                } else {
                    None
                })
                &&& final(self).prediction@ == (if left.ghost_visible() {
                    left.finishing(false)
                } else {
                    left
                })
            }),
            *final(self) == (TextService {
                comp: old(self).comp.noticed(),
                mode: ModeState { password_ctx_key: 0, ..old(self).mode },
                layout: LayoutState { last_valid_anchor: None, ..old(self).layout },
                prediction: final(self).prediction,
                ..*old(self)
            }),
    {
        self.comp.consume_started_composition();
        self.mode.forget_password_context();
        self.layout.forget_anchor();
        self.prediction.begin_abandon_prediction(Invalidation::FocusChanged)
    }

    /// That drawing was taken away or not. A refusal belongs to the old context only.
    pub fn prediction_left(&mut self, done: Option<bool>)
        ensures
            final(self).prediction@ == (UiModel {
                failed_context: None,
                ..(if done != Some(false) {
                    old(self).prediction@.cleaned().retries_no_more()
                } else {
                    old(self).prediction@.refused_by_owner(old(self).layout.sink_ctx).retries(true)
                })
            }),
            *final(self) == (TextService { prediction: final(self).prediction, ..*old(self) }),
    {
        let _ = self.prediction.abandon_prediction_for_context_change(done, self.layout.sink_ctx);
        self.prediction.failed_context = None;
    }

    /// The focus moves to a document whose top context is `new_ctx`. A prediction of another field
    /// is left: `Some` then tells how its drawing is taken away, if there is one.
    pub fn on_set_focus(&mut self, new_ctx: Option<usize>) -> (r: Option<Option<FinishStart>>)
        ensures
            ({
                let ui = old(self).prediction@;
                let field = or_else(ui.context, old(self).layout.sink_ctx);
                let same = new_ctx is Some && field == new_ctx;
                let left = (UiModel { deferred: Seq::empty(), ..ui }).invalidated(
                    Invalidation::FocusChanged,
                );
                if !same && ui.belongs_to_field() {
                    if left.ghost_visible() {
                        r == Some(Some(left.finish_start(false))) && final(self).prediction@
                            == left.finishing(false)
                    } else {
                        r == Some(None::<FinishStart>) && final(self).prediction@ == left
                    }
                } else {
                    r is None && final(self).prediction@ == ui
                }
            }),
            *final(self) == (TextService {
                comp: old(self).comp.noticed(),
                mode: ModeState { password_ctx_key: 0, ..old(self).mode },
                layout: LayoutState { last_valid_anchor: None, ..old(self).layout },
                prediction: final(self).prediction,
                ..*old(self)
            }),
    {
        self.comp.consume_started_composition();
        self.mode.forget_password_context();
        self.layout.forget_anchor();
        let field = if self.prediction.context.is_some() {
            self.prediction.context
        } else {
            self.layout.sink_ctx
        };
        let same = match (new_ctx, field) {
            (Some(a), Some(b)) => a == b,
            _ => false,
        };
        if !same && (self.prediction.state.has_private_state()
            || self.prediction.prediction_ghost_visible()
            || self.prediction.failed_context.is_some()) {
            return Some(self.prediction.begin_abandon_prediction(Invalidation::FocusChanged));
        }
        None
    }

    /// The focus moved. The commit that could be taken back, and a key that was promised, belong
    /// to the document that had it.
    pub fn focus_moved(&mut self, focus_is_our_doc: bool) -> (r: FocusStep)
        ensures
            r.abandon == (old(self).has_active_input() && !focus_is_our_doc
                && !old(self).partial_committing),
            r.elsewhere == !focus_is_our_doc,
            *final(self) == (if focus_is_our_doc {
                *old(self)
            } else {
                TextService {
                    comp: old(self).comp.without_reservation(),
                    commit: disarmed(old(self).commit),
                    ..*old(self)
                }
            }),
    {
        let has_active_input = self.link.session != 0 || self.comp.composition.is_some();
        let abandon = should_abandon_on_focus_change(
            has_active_input,
            focus_is_our_doc,
            self.partial_committing,
        );
        if !focus_is_our_doc {
            self.comp.invalidate_pending_end_test_reservation();
            self.commit.disarm_undo();
        }
        FocusStep { abandon, elsewhere: !focus_is_our_doc }
    }

    /// Another program has the focus now.
    pub fn on_kill_thread_focus(&mut self) -> (r: Option<FinishStart>)
        ensures
            ({
                let left = (UiModel {
                    deferred: Seq::empty(),
                    ..old(self).prediction@
                }).invalidated(Invalidation::FocusChanged);
                &&& r == (if left.ghost_visible() {
                    Some(left.finish_start(false))
                } else {
                    None
                })
                &&& final(self).prediction@ == (if left.ghost_visible() {
                    left.finishing(false)
                } else {
                    left
                })
            }),
            *final(self) == (TextService {
                comp: old(self).comp.noticed().without_reservation(),
                layout: LayoutState { last_valid_anchor: None, ..old(self).layout },
                prediction: final(self).prediction,
                ..*old(self)
            }),
    {
        self.comp.consume_started_composition();
        self.comp.invalidate_pending_end_test_reservation();
        self.layout.forget_anchor();
        self.prediction.begin_abandon_prediction(Invalidation::FocusChanged)
    }

    /// The drawing of a prediction is dealt with; the rest follows as if the focus were in another
    /// document. `true` leaves the composition to the host.
    pub fn thread_focus_lost(&mut self) -> (r: bool)
        ensures
            r == (old(self).has_active_input() && !old(self).partial_committing),
            *final(self) == (TextService { commit: disarmed(old(self).commit), ..*old(self) }),
    {
        let has_active_input = self.link.session != 0 || self.comp.composition.is_some();
        self.commit.disarm_undo();
        should_abandon_on_focus_change(has_active_input, false, self.partial_committing)
    }

    /// Begins a change of the mode: what is predicted, and the keys that were put off for it, are
    /// of the old mode. `Some` tells how the drawing is taken away; the mode changes either way.
    pub fn begin_mode_toggle(&mut self) -> (r: Option<FinishStart>)
        ensures
            ({
                let left = (UiModel {
                    deferred: Seq::empty(),
                    ..old(self).prediction@
                }).invalidated(Invalidation::ModeChanged);
                &&& r == (if left.ghost_visible() {
                    Some(left.finish_start(false))
                } else {
                    None
                })
                &&& final(self).prediction@ == (if left.ghost_visible() {
                    left.finishing(false)
                } else {
                    left
                })
            }),
            *final(self) == (TextService { prediction: final(self).prediction, ..*old(self) }),
    {
        self.prediction.begin_abandon_prediction(Invalidation::ModeChanged)
    }

    /// The target of a preedit: without its display attribute none is marked, because the
    /// attribute of nothing would take the underline away.
    pub fn preedit_target(&self, target: Option<crate::preedit_apply::Span>) -> (r: Option<
        crate::preedit_apply::Span,
    >)
        ensures
            r == (if self.act.da_target_atom != 0 {
                target
            } else {
                None
            }),
    {
        if self.act.da_target_atom != 0 {
            target
        } else {
            None
        }
    }
}

/// A drawing that ended is gone, and no try to take it away is left, unless keys wait for it. One
/// that the service did not end itself takes its prediction along, but not what was committed.
pub proof fn an_ended_drawing_is_gone(ui: UiModel, internal: bool)
    ensures
        ({
            let after = ui.terminated(internal);
            &&& after.composition is None && after.context is None && after.finish_pending is None
            &&& ui.deferred.len() == 0 ==> !after.retry.pending() && after.retry_count == 0
            &&& ui.deferred.len() > 0 && !ui.retry.pending() && ui.retry_count < 8
                ==> after.retry.wanted == Some(50u32)
            &&& internal ==> after.state == ui.state && after.slot == ui.slot
            &&& !internal ==> !after.state.active() && after.state.context == ui.state.context
                && !after.slot
            &&& after.deferred == ui.deferred && after.failed_context == ui.failed_context
            &&& after.poll == ui.poll
        }),
        ui.belongs_to_field() <==> ui.state.active() || ui.state.context.len() > 0
            || ui.state.suppressed is Some || ui.composition is Some || ui.failed_context is Some,
{
}

/// Input is under way exactly while a session is open or something is composed.
pub proof fn a_session_or_a_composition_is_input(s: TextService)
    ensures
        s.has_active_input() <==> s.link.session != 0 || s.comp.composition is Some,
{
}

/// The end of a drawing touches the drawing, its tries and what was predicted; how often it was
/// tried is kept while keys wait.
pub proof fn an_ended_drawing_keeps_the_rest(ui: UiModel, internal: bool)
    ensures
        ({
            let after = ui.terminated(internal);
            &&& after == (UiModel {
                composition: None,
                context: None,
                finish_pending: None,
                retry: after.retry,
                retry_count: after.retry_count,
                state: after.state,
                slot: after.slot,
                commit_edit_deadline: after.commit_edit_deadline,
                ..ui
            })
            &&& ui.deferred.len() > 0 ==> after.retry_count == ui.retry_count
            &&& internal ==> after.commit_edit_deadline == ui.commit_edit_deadline
            &&& !internal ==> after.commit_edit_deadline is None
        }),
{
}

} // verus!
