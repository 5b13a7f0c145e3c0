//! The life of the text service: switched on, switched off, and told by the host that focus or
//! composition moved on without it.

use vstd::prelude::*;
use vstd::string::*;
use crate::prediction_state::Invalidation;
use crate::text_service::behavior::BehaviorQueue;
use crate::text_service::composition::{CompositionEndStatus, CompositionState};
use crate::text_service::conversion::{next_seq, ConversionModel, ConversionState};
use crate::text_service::engine_link::EngineLink;
use crate::text_service::feedback::CommitMemory;
use crate::text_service::layout::{LayoutState, Unadvise};
use crate::text_service::mode::ModeState;
use crate::text_service::prediction_ui::{PredictionUi, UiModel};

verus! {

/// What the service holds of its host.
#[derive(Clone, Copy, Debug, PartialEq, Eq, Structural)]
pub struct Activation {
    /// The number under which the host knows the service, 0 while it is off.
    pub tid: u32,
    pub thread_mgr: bool,
    /// The service is being switched off.
    pub deactivating: bool,
    pub thread_mgr_event_cookie: u32,
    pub thread_focus_cookie: u32,
    pub da_atom: u32,
    pub da_target_atom: u32,
    pub da_prediction_atom: u32,
    pub langbar_item: bool,
    pub power_notify: bool,
}

/// What the settings say, as far as the service itself goes by it.
#[derive(Clone, Copy, Debug, PartialEq, Eq, Structural)]
pub struct ServiceFlags {
    pub typo_enabled: bool,
    pub number_full_width: bool,
    pub punctuation_full_width: bool,
    pub symbol_overlay: bool,
    pub reading_monitor_enabled: bool,
    pub reading_monitor_accumulate: bool,
    pub reading_monitor_max_chars: u32,
    pub shift_latin_compose: bool,
    pub ephemeral_enabled: bool,
}

/// A key that the host keeps for the service.
#[derive(Clone, Copy, Debug, PartialEq, Eq, Structural)]
pub struct PreservedKey {
    pub guid: u128,
    pub vk: u32,
    pub modifiers: u32,
}

/// The settings at the time of an activation.
#[derive(Clone, Copy, Debug, PartialEq, Eq, Structural)]
pub struct ActivationSettings {
    pub flags: ServiceFlags,
    pub feedback: bool,
    pub inline_prediction: bool,
    pub live_conversion: bool,
    /// The external model may be asked.
    pub llm_effective: bool,
    /// The external model is replaced by an echo, for diagnosis.
    pub llm_echo: bool,
    pub default_direct: bool,
}

/// The text service.
pub struct TextService {
    pub act: Activation,
    pub flags: ServiceFlags,
    pub preserved: Vec<PreservedKey>,
    pub comp: CompositionState,
    pub conv: ConversionState,
    pub prediction: PredictionUi,
    /// The service itself edits the drawing of a prediction.
    pub prediction_editing: bool,
    pub link: EngineLink,
    pub mode: ModeState,
    pub layout: LayoutState,
    pub behavior: BehaviorQueue,
    pub commit: CommitMemory,
    /// A part of the composition is being committed.
    pub partial_committing: bool,
}

/// How an activation begins.
#[derive(Clone, Copy, Debug, PartialEq, Eq, Structural)]
pub enum ActivateStart {
    /// The service is being switched off.
    Rejected,
    /// There is no thread manager.
    NoThreadMgr,
    Go,
}

/// How a composition is given up when the service is switched off.
#[derive(Clone, Copy, Debug, PartialEq, Eq, Structural)]
pub enum DeactivateCancelPlan {
    /// Nothing is composed.
    Nothing,
    /// Nobody knows where: nothing can be given up.
    AbortNoContext,
    /// The text of the document is put back.
    CancelReconvert,
    /// The composition is cancelled, or closed where its text is committed already.
    DoCancel,
}

/// The plan for a composition when the service is switched off.
pub open spec fn cancel_plan(
    has_composition: bool,
    has_ctx: bool,
    reconverting: bool,
    end_pending: bool,
) -> DeactivateCancelPlan {
    if !has_composition {
        DeactivateCancelPlan::Nothing
    } else if !has_ctx {
        DeactivateCancelPlan::AbortNoContext
    } else if reconverting && !end_pending {
        DeactivateCancelPlan::CancelReconvert
    } else {
        DeactivateCancelPlan::DoCancel
    }
}

/// Plans how a composition is given up when the service is switched off. A committed text is never
/// put back or emptied.
pub fn deactivate_cancel_plan(
    has_composition: bool,
    has_ctx: bool,
    reconverting: bool,
    end_pending: bool,
) -> (r: DeactivateCancelPlan)
    ensures
        r == cancel_plan(has_composition, has_ctx, reconverting, end_pending),
{
    if !has_composition {
        DeactivateCancelPlan::Nothing
    } else if !has_ctx {
        DeactivateCancelPlan::AbortNoContext
    } else if end_pending {
        DeactivateCancelPlan::DoCancel
    } else if reconverting {
        DeactivateCancelPlan::CancelReconvert
    } else {
        DeactivateCancelPlan::DoCancel
    }
}

/// Whether a composition is left to the host when the focus moves: there is one, the focus is
/// elsewhere, and the service is not committing a part of it right now.
pub fn should_abandon_on_focus_change(
    has_active_input: bool,
    focus_is_our_doc: bool,
    partial_committing: bool,
) -> (r: bool)
    ensures
        r == (has_active_input && !focus_is_our_doc && !partial_committing),
{
    has_active_input && !focus_is_our_doc && !partial_committing
}

impl ConversionModel {
    /// Nothing is typed.
    pub open spec fn input_reset(self) -> ConversionModel {
        ConversionModel {
            composing: false,
            awaiting_llm: false,
            last_good: Seq::empty(),
            ..self
        }
    }

    /// Nothing of a reconversion is left.
    pub open spec fn without_reconversion(self) -> ConversionModel {
        ConversionModel {
            reconverting: false,
            reconvert_original: Seq::empty(),
            reconvert_reading: Seq::empty(),
            ..self
        }
    }

    /// The external model is not asked any more.
    pub open spec fn without_llm(self) -> ConversionModel {
        ConversionModel {
            llm_poll: self.llm_poll.disarmed(),
            llm_slot: false,
            llm_started: None,
            ..self
        }
    }

    /// The composition was left to the host: nothing of it is kept. A worker that still asks the
    /// external model is not listened to any more.
    pub open spec fn abandoned(self) -> ConversionModel {
        let quiet = if self.awaiting_llm {
            ConversionModel { llm_seq: next_seq(self.llm_seq), ..self }.without_llm()
        } else {
            self
        };
        ConversionModel {
            debounce: quiet.debounce.disarmed(),
            current_context: None,
            live_text: Seq::empty(),
            ..quiet.input_reset().without_surroundings().closed().without_reconversion()
        }
    }

    /// The service was switched off: nothing that was typed is kept.
    pub open spec fn switched_off(self) -> ConversionModel {
        ConversionModel {
            debounce: self.debounce.disarmed(),
            current_context: None,
            live_text: Seq::empty(),
            ..self.without_llm().input_reset().without_surroundings().without_reconversion()
        }
    }
}

impl ConversionState {
    pub(crate) fn reset_input(&mut self)
        ensures
            final(self)@ == old(self)@.input_reset(),
    {
        self.composing = false;
        self.awaiting_llm = false;
        self.last_good = String::new();
    }

    fn forget_reconversion(&mut self)
        ensures
            final(self)@ == old(self)@.without_reconversion(),
    {
        self.reconverting = false;
        self.reconvert_original = String::new();
        self.reconvert_reading = String::new();
    }

    fn forget_llm(&mut self)
        ensures
            final(self)@ == old(self)@.without_llm(),
    {
        self.llm_poll.disarm();
        self.llm_slot = false;
        self.llm_started = None;
    }

    /// The composition was left to the host.
    pub fn abandon(&mut self)
        ensures
            final(self)@ == old(self)@.abandoned(),
            final(self)@.wf(),
    {
        if self.awaiting_llm {
            self.llm_seq = self.llm_seq.wrapping_add(1);
            self.forget_llm();
        }
        self.reset_input();
        self.forget_surroundings();
        self.close_candidates();
        self.disarm_debounce();
        self.current_context = None;
        self.live_text = String::new();
        self.forget_reconversion();
    }

    fn switch_off(&mut self)
        ensures
            final(self)@ == old(self)@.switched_off(),
    {
        self.disarm_debounce();
        self.forget_llm();
        self.reset_input();
        self.live_text = String::new();
        self.current_context = None;
        self.forget_surroundings();
        self.forget_reconversion();
    }
}

/// What has to be undone with the host.
pub struct Registrations {
    pub tid: u32,
    pub layout: Option<Unadvise>,
    pub preserved: Vec<PreservedKey>,
    pub langbar_item: bool,
    pub thread_mgr_event_cookie: u32,
    pub thread_focus_cookie: u32,
}

impl TextService {
    pub fn new() -> (r: Self)
        ensures
            r.act == (Activation {
                tid: 0,
                thread_mgr: false,
                deactivating: false,
                thread_mgr_event_cookie: 0,
                thread_focus_cookie: 0,
                da_atom: 0,
                da_target_atom: 0,
                da_prediction_atom: 0,
                langbar_item: false,
                power_notify: false,
            }),
            r.flags == (ServiceFlags {
                typo_enabled: false,
                number_full_width: true,
                punctuation_full_width: true,
                symbol_overlay: false,
                reading_monitor_enabled: true,
                reading_monitor_accumulate: true,
                reading_monitor_max_chars: 34,
                shift_latin_compose: true,
                ephemeral_enabled: true,
            }),
            r.preserved@.len() == 0,
            r.comp == CompositionState::initial(),
            r.conv@ == ConversionModel::initial(),
            r.prediction@ == UiModel::initial(),
            !r.prediction_editing,
            r.link.is_initial(),
            r.mode == ModeState::initial(),
            r.layout == LayoutState::initial(),
            r.behavior == BehaviorQueue::initial(),
            r.commit.last_commit is None,
            !r.commit.undo_armed,
            !r.commit.feedback_enabled,
            !r.partial_committing,
    {
        TextService {
            act: Activation {
                tid: 0,
                thread_mgr: false,
                deactivating: false,
                thread_mgr_event_cookie: 0,
                thread_focus_cookie: 0,
                da_atom: 0,
                da_target_atom: 0,
                da_prediction_atom: 0,
                langbar_item: false,
                power_notify: false,
            },
            flags: ServiceFlags {
                typo_enabled: false,
                number_full_width: true,
                punctuation_full_width: true,
                symbol_overlay: false,
                reading_monitor_enabled: true,
                reading_monitor_accumulate: true,
                reading_monitor_max_chars: 34,
                shift_latin_compose: true,
                ephemeral_enabled: true,
            },
            preserved: Vec::new(),
            comp: CompositionState::new(),
            conv: ConversionState::new(),
            prediction: PredictionUi::new(),
            prediction_editing: false,
            link: EngineLink::new(),
            mode: ModeState::new(),
            layout: LayoutState::new(),
            behavior: BehaviorQueue::new(),
            commit: CommitMemory::new(),
            partial_committing: false,
        }
    }

    /// The service is switched on. Keys of an earlier activation are not waited for any more.
    pub fn activate(&mut self, tid: u32, has_thread_mgr: bool) -> (r: ActivateStart)
        ensures
            r == (if old(self).act.deactivating {
                ActivateStart::Rejected
            } else if !has_thread_mgr {
                ActivateStart::NoThreadMgr
            } else {
                ActivateStart::Go
            }),
            *final(self) == (match r {
                ActivateStart::Rejected => *old(self),
                ActivateStart::NoThreadMgr => TextService {
                    comp: old(self).comp.noticed().without_reservation(),
                    ..*old(self)
                },
                ActivateStart::Go => TextService {
                    comp: old(self).comp.noticed().without_reservation(),
                    act: Activation { tid, thread_mgr: true, ..old(self).act },
                    ..*old(self)
                },
            }),
    {
        if self.act.deactivating {
            return ActivateStart::Rejected;
        }
        self.comp.consume_started_composition();
        self.comp.invalidate_pending_end_test_reservation();
        if !has_thread_mgr {
            return ActivateStart::NoThreadMgr;
        }
        self.act.tid = tid;
        self.act.thread_mgr = true;
        ActivateStart::Go
    }

    /// Whether the host still has to be asked to tell about focus.
    pub fn wants_focus_sinks(&self) -> (r: bool)
        ensures
            r == (self.act.thread_mgr_event_cookie == 0),
    {
        self.act.thread_mgr_event_cookie == 0
    }

    /// The host tells about focus, under these numbers. 0 stands for what it does not tell: a
    /// number from before is kept then, so that its report can still be ended.
    pub fn focus_sinks_advised(&mut self, event_cookie: u32, focus_cookie: u32)
        ensures
            *final(self) == (TextService {
                act: Activation {
                    thread_mgr_event_cookie: if event_cookie != 0 {
                        event_cookie
                    } else {
                        old(self).act.thread_mgr_event_cookie
                    },
                    thread_focus_cookie: if focus_cookie != 0 {
                        focus_cookie
                    } else {
                        old(self).act.thread_focus_cookie
                    },
                    ..old(self).act
                },
                ..*old(self)
            }),
    {
        if event_cookie != 0 {
            self.act.thread_mgr_event_cookie = event_cookie;
        }
        if focus_cookie != 0 {
            self.act.thread_focus_cookie = focus_cookie;
        }
    }

    /// The settings are read once for each activation.
    pub fn apply_settings(&mut self, s: ActivationSettings)
        ensures
            final(self).flags == s.flags,
            final(self).commit == (CommitMemory {
                feedback_enabled: s.feedback,
                ..old(self).commit
            }),
            final(self).prediction@ == (UiModel {
                enabled: s.inline_prediction,
                ..old(self).prediction@
            }),
            final(self).conv@ == (ConversionModel {
                live_enabled: s.live_conversion,
                llm_enabled: s.llm_effective || s.llm_echo,
                ..old(self).conv@
            }),
            *final(self) == (TextService {
                flags: final(self).flags,
                commit: final(self).commit,
                prediction: final(self).prediction,
                conv: final(self).conv,
                ..*old(self)
            }),
    {
        self.flags = s.flags;
        self.commit.feedback_enabled = s.feedback;
        self.prediction.enabled = s.inline_prediction;
        self.conv.live_enabled = s.live_conversion;
        self.conv.llm_enabled = s.llm_effective || s.llm_echo;
    }

    /// What the host keeps for the service: keys and display attributes. An attribute that could
    /// not be had stays as it was.
    pub fn registered(
        &mut self,
        preserved: Vec<PreservedKey>,
        da_atom: Option<u32>,
        da_target_atom: Option<u32>,
        da_prediction_atom: Option<u32>,
    )
        ensures
            *final(self) == (TextService {
                preserved,
                act: Activation {
                    da_atom: match da_atom {
                        Some(atom) => atom,
                        None => old(self).act.da_atom,
                    },
                    da_target_atom: match da_target_atom {
                        Some(atom) => atom,
                        None => old(self).act.da_target_atom,
                    },
                    da_prediction_atom: match da_prediction_atom {
                        Some(atom) => atom,
                        None => old(self).act.da_prediction_atom,
                    },
                    ..old(self).act
                },
                ..*old(self)
            }),
    {
        self.preserved = preserved;
        if let Some(atom) = da_atom {
            self.act.da_atom = atom;
        }
        if let Some(atom) = da_target_atom {
            self.act.da_target_atom = atom;
        }
        if let Some(atom) = da_prediction_atom {
            self.act.da_prediction_atom = atom;
        }
    }

    /// The mode is made direct at the first activation that can do it.
    pub open spec fn makes_direct(self, default_direct: bool) -> bool {
        default_direct && !self.mode.default_direct_applied
    }

    /// Prepares the item of the language bar: it shows the mode that is about to be, where that
    /// mode can be set. `false` where there is an item already.
    pub fn prepare_langbar_item(
        &mut self,
        default_direct: bool,
        compartment_available: bool,
        live: u32,
    ) -> (r: bool)
        ensures
            r == !old(self).act.langbar_item,
            *final(self) == (if r {
                TextService {
                    mode: ModeState {
                        langbar_is_direct: (old(self).makes_direct(default_direct)
                            && compartment_available) || (if old(self).mode.direct_mode_owned {
                            old(self).mode.langbar_is_direct
                        } else {
                            crate::text_service::mode::types_directly(live)
                        }),
                        ..old(self).mode
                    },
                    ..*old(self)
                }
            } else {
                *old(self)
            }),
    {
        if self.act.langbar_item {
            return false;
        }
        let will_be_direct = default_direct && !self.mode.default_direct_applied;
        let direct_now = self.mode.is_direct_mode(live);
        self.mode.langbar_is_direct = (will_be_direct && compartment_available) || direct_now;
        true
    }

    /// The item of the language bar was added or not.
    pub fn langbar_item_added(&mut self, added: bool)
        ensures
            *final(self) == (TextService {
                act: Activation {
                    langbar_item: old(self).act.langbar_item || added,
                    ..old(self).act
                },
                ..*old(self)
            }),
    {
        if added {
            self.act.langbar_item = true;
        }
    }

    /// Whether this activation makes the mode direct.
    pub fn should_apply_default_direct(&self, default_direct: bool) -> (r: bool)
        ensures
            r == self.makes_direct(default_direct),
    {
        default_direct && !self.mode.default_direct_applied
    }

    /// This activation made the mode direct or not; success counts once.
    pub fn default_direct_done(&mut self, ok: bool)
        ensures
            *final(self) == (TextService {
                mode: ModeState {
                    default_direct_applied: old(self).mode.default_direct_applied || ok,
                    ..old(self).mode
                },
                ..*old(self)
            }),
    {
        if ok {
            self.mode.default_direct_applied = true;
        }
    }

    /// The system tells when it wakes up, or does not; `gen` is its count so far. Where it tells
    /// already, nothing changes.
    pub fn power_registered(&mut self, gen: Option<u32>)
        ensures
            *final(self) == (if old(self).act.power_notify {
                *old(self)
            } else {
                TextService {
                    act: Activation { power_notify: gen is Some, ..old(self).act },
                    link: EngineLink {
                        last_resume_gen: match gen {
                            Some(gen) => gen,
                            None => old(self).link.last_resume_gen,
                        },
                        resume_convert_pending: false,
                        ..old(self).link
                    },
                    ..*old(self)
                }
            }),
    {
        if self.act.power_notify {
            return;
        }
        if let Some(gen) = gen {
            self.act.power_notify = true;
            self.link.last_resume_gen = gen;
        }
        self.link.resume_convert_pending = false;
    }

    /// Begins to switch the service off. `false` where that is under way already.
    pub fn deactivate(&mut self) -> (r: bool)
        ensures
            r == !old(self).act.deactivating,
            *final(self) == (TextService {
                act: Activation { deactivating: true, ..old(self).act },
                ..*old(self)
            }),
    {
        if self.act.deactivating {
            return false;
        }
        self.act.deactivating = true;
        true
    }

    /// The attempt to switch the service off is over, whatever came of it.
    pub fn deactivate_over(&mut self)
        ensures
            *final(self) == (TextService {
                act: Activation { deactivating: false, ..old(self).act },
                ..*old(self)
            }),
    {
        self.act.deactivating = false;
    }

    /// The context in which a composition is given up.
    pub open spec fn cancel_context(self) -> Option<usize> {
        if self.comp.composition is None {
            None
        } else if self.comp.composition_end_pending {
            self.comp.composition_end_context
        } else {
            self.conv@.current_context
        }
    }

    /// The plan for the composition.
    pub open spec fn plan(self) -> DeactivateCancelPlan {
        cancel_plan(
            self.comp.composition is Some,
            self.cancel_context() is Some,
            self.conv@.reconverting,
            self.comp.composition_end_pending,
        )
    }

    /// Plans how the composition is given up, and where. Nothing is undone before that worked.
    pub fn deactivate_preflight(&self) -> (r: (DeactivateCancelPlan, Option<usize>))
        ensures
            r.0 == self.plan(),
            r.1 == self.cancel_context(),
    {
        let has_composition = self.comp.composition.is_some();
        let ctx = if has_composition {
            if self.comp.composition_end_pending {
                self.comp.composition_end_context
            } else {
                self.conv.current_context
            }
        } else {
            None
        };
        let plan = deactivate_cancel_plan(
            has_composition,
            ctx.is_some(),
            self.conv.reconverting,
            self.comp.composition_end_pending,
        );
        (plan, ctx)
    }

    /// The composition was given up or not, by the plan. `false` stops: everything is as it was,
    /// and the host may try again. A text that is committed already stands in nobody's way.
    pub fn deactivate_cancelled(&mut self, plan: DeactivateCancelPlan, cancel_ok: bool) -> (r: bool)
        ensures
            r == (plan == DeactivateCancelPlan::Nothing || old(self).comp.composition_end_pending
                || (plan != DeactivateCancelPlan::AbortNoContext && cancel_ok)),
            *final(self) == (if (plan == DeactivateCancelPlan::AbortNoContext || (plan
                != DeactivateCancelPlan::Nothing && !cancel_ok))
                && old(self).comp.composition_end_pending {
                TextService {
                    comp: old(self).comp.settled(CompositionEndStatus::Terminal),
                    ..*old(self)
                }
            } else {
                *old(self)
            }),
    {
        match plan {
            DeactivateCancelPlan::Nothing => true,
            DeactivateCancelPlan::AbortNoContext => {
                if self.comp.composition_end_pending {
                    self.comp.abandon_pending_composition_end();
                    true
                } else {
                    false
                }
            },
            _ => {
                if cancel_ok {
                    return true;
                }
                if self.comp.composition_end_pending {
                    self.comp.abandon_pending_composition_end();
                    true
                } else {
                    false
                }
            },
        }
    }

    /// Lets go of the composition and of everything that the host keeps for the service. The
    /// caller undoes it with the host; `keystroke_mgr` tells whether the host can be reached to
    /// give its keys back, without which they stay known.
    pub fn deactivate_release(&mut self, issued: u64, keystroke_mgr: bool) -> (r: Registrations)
        ensures
            r.tid == old(self).act.tid,
            r.layout == old(self).layout.reports(),
            r.preserved@ == (if old(self).act.thread_mgr && keystroke_mgr {
                old(self).preserved@
            } else {
                Seq::empty()
            }),
            r.langbar_item == (old(self).act.thread_mgr && old(self).act.langbar_item),
            r.thread_mgr_event_cookie == (if old(self).act.thread_mgr {
                old(self).act.thread_mgr_event_cookie
            } else {
                0
            }),
            r.thread_focus_cookie == (if old(self).act.thread_mgr {
                old(self).act.thread_focus_cookie
            } else {
                0
            }),
            final(self).preserved@ == (if old(self).act.thread_mgr && keystroke_mgr {
                Seq::empty()
            } else {
                old(self).preserved@
            }),
            *final(self) == (TextService {
                preserved: final(self).preserved,
                comp: old(self).comp.released(),
                layout: old(self).layout.unadvised().bumped(issued),
                act: if old(self).act.thread_mgr {
                    Activation {
                        langbar_item: false,
                        thread_mgr_event_cookie: 0,
                        thread_focus_cookie: 0,
                        ..old(self).act
                    }
                } else {
                    old(self).act
                },
                ..*old(self)
            }),
    {
        self.comp.release();
        let layout = self.layout.unadvise_layout_sink();
        self.layout.bump_layout_sink_gen(issued);
        let mut registrations = Registrations {
            tid: self.act.tid,
            layout,
            preserved: Vec::new(),
            langbar_item: false,
            thread_mgr_event_cookie: 0,
            thread_focus_cookie: 0,
        };
        if self.act.thread_mgr {
            if keystroke_mgr {
                std::mem::swap(&mut registrations.preserved, &mut self.preserved);
            }
            registrations.langbar_item = self.act.langbar_item;
            self.act.langbar_item = false;
            registrations.thread_mgr_event_cookie = self.act.thread_mgr_event_cookie;
            registrations.thread_focus_cookie = self.act.thread_focus_cookie;
            self.act.thread_mgr_event_cookie = 0;
            self.act.thread_focus_cookie = 0;
        }
        registrations
    }

    /// Forgets the connection and everything that was typed. Reports that were started again in
    /// the meantime end too.
    pub fn deactivate_forget(&mut self) -> (r: Option<Unadvise>)
        ensures
            r == old(self).layout.reports(),
            final(self).layout == (LayoutState {
                last_valid_anchor: None,
                ..old(self).layout.unadvised()
            }),
            final(self).link == (EngineLink {
                client: false,
                session: 0,
                pending_end_session: 0,
                spawn_attempted: false,
                resume_convert_pending: false,
                ..old(self).link
            }),
            final(self).act == (Activation { power_notify: false, ..old(self).act }),
            final(self).conv@ == old(self).conv@.switched_off(),
            final(self).comp == old(self).comp.without_redraw(),
            final(self).commit == (CommitMemory {
                last_commit: None,
                undo_armed: false,
                ..old(self).commit
            }),
            *final(self) == (TextService {
                layout: final(self).layout,
                link: final(self).link,
                act: final(self).act,
                conv: final(self).conv,
                comp: final(self).comp,
                commit: final(self).commit,
                ..*old(self)
            }),
    {
        let layout = self.layout.unadvise_layout_sink();
        self.link.client = false;
        self.link.session = 0;
        self.link.pending_end_session = 0;
        self.link.spawn_attempted = false;
        self.act.power_notify = false;
        self.link.resume_convert_pending = false;
        self.layout.forget_anchor();
        self.conv.switch_off();
        self.comp.forget_redraw();
        self.commit.last_commit = None;
        self.commit.undo_armed = false;
        layout
    }

    /// The service is off. Kana for a while end here, even where the mode could not be set back.
    /// The mode itself stays as the user chose it. The result is the timer for requests that were
    /// put off, which the caller stops.
    pub fn deactivate_inner(&mut self) -> (r: usize)
        ensures
            r == old(self).behavior.behavior_flush_timer,
            final(self).mode == (if old(self).mode.ephemeral_kana {
                ModeState {
                    ephemeral_kana: false,
                    direct_mode_owned: false,
                    langbar_ephemeral: false,
                    ..old(self).mode
                }
            } else {
                old(self).mode
            }),
            final(self).conv@ == old(self).conv@.closed(),
            final(self).conv@.wf(),
            final(self).behavior == (BehaviorQueue {
                behavior_flush_timer: 0,
                ..old(self).behavior
            }),
            final(self).link == (EngineLink {
                reload_retry_count: 0,
                ..old(self).link.without_retry()
            }),
            final(self).prediction@ == old(self).prediction@.retries_no_more().polls_no_more().invalidated(Invalidation::Disabled),
            final(self).act == (Activation { tid: 0, thread_mgr: false, ..old(self).act }),
            *final(self) == (TextService {
                mode: final(self).mode,
                conv: final(self).conv,
                behavior: final(self).behavior,
                link: final(self).link,
                prediction: final(self).prediction,
                act: final(self).act,
                ..*old(self)
            }),
    {
        if self.mode.ephemeral_kana {
            self.mode.ephemeral_kana = false;
            self.mode.direct_mode_owned = false;
            self.mode.langbar_ephemeral = false;
        }
        self.conv.close_candidates();
        let flush_timer: usize = self.behavior.behavior_flush_timer;
        self.behavior.behavior_flush_timer = 0;
        self.link.stop_reload_retry();
        self.prediction.switch_off();
        self.act.thread_mgr = false;
        self.act.tid = 0;
        flush_timer
    }
}

/// A service that is switched off keeps nothing of what was typed, of the document, or of the
/// last commit, and nothing runs on.
pub proof fn nothing_is_kept_when_switched_off(conversion: ConversionModel)
    ensures
        ({
            let off = conversion.switched_off().closed();
            &&& !off.composing && !off.awaiting_llm && !off.showing && !off.reconverting
            &&& off.live_text.len() == 0 && off.last_good.len() == 0
            &&& off.reconvert_original.len() == 0 && off.reconvert_reading.len() == 0
            &&& off.monitor_committed_reading.len() == 0
            &&& off.left_context is None && off.current_context is None
            &&& !off.llm_slot && off.llm_started is None
            &&& !off.llm_poll.pending() && !off.debounce.pending()
            &&& off.clause_nav is None
        }),
{
}

/// A composition that was left to the host leaves nothing behind that the next one could take for
/// its own: no text, no reading, no context, and no answer of the external model.
pub proof fn an_abandoned_composition_leaves_nothing(
    conversion: ConversionModel,
    composition: CompositionState,
)
    ensures
        ({
            let left = conversion.abandoned();
            &&& !left.composing && !left.awaiting_llm && !left.showing && !left.reconverting
            &&& left.live_text.len() == 0 && left.last_good.len() == 0
            &&& left.left_context is None && left.current_context is None
            &&& left.reconvert_original.len() == 0
            &&& conversion.awaiting_llm ==> left.llm_seq != conversion.llm_seq && !left.llm_slot
            &&& left.wf()
        }),
        composition.abandoned().composition is None,
        !composition.abandoned().composition_end_pending,
        composition.abandoned().pending_end_test_reservation.reservation is None,
{
}

/// A composition is given up where it stands, without touching a text that is committed already.
/// Text of the document that is converted is put back. Without a context nothing can be given up.
pub proof fn a_composition_is_given_up_where_it_stands(s: TextService)
    ensures
        s.comp.composition is None ==> s.plan() == DeactivateCancelPlan::Nothing
            && s.cancel_context() is None,
        s.comp.composition is Some && s.comp.composition_end_pending ==> s.cancel_context()
            == s.comp.composition_end_context,
        s.comp.composition is Some && !s.comp.composition_end_pending ==> s.cancel_context()
            == s.conv@.current_context,
        s.comp.composition is Some && s.cancel_context() is None ==> s.plan()
            == DeactivateCancelPlan::AbortNoContext,
        s.comp.composition is Some && s.cancel_context() is Some && s.comp.composition_end_pending
            ==> s.plan() == DeactivateCancelPlan::DoCancel,
        s.comp.composition is Some && s.cancel_context() is Some && !s.comp.composition_end_pending
            ==> s.plan() == (if s.conv@.reconverting {
            DeactivateCancelPlan::CancelReconvert
        } else {
            DeactivateCancelPlan::DoCancel
        }),
        s.makes_direct(true) <==> !s.mode.default_direct_applied,
        !s.makes_direct(false),
{
}

/// What is forgotten, and what is not: a reset input is not composed any more but still shown; a
/// forgotten reconversion leaves the rest; a forgotten worker is not looked after.
pub proof fn only_what_ended_is_forgotten(m: ConversionModel)
    ensures
        ({
            let after = m.input_reset();
            &&& !after.composing && !after.awaiting_llm && after.last_good.len() == 0
            &&& after.live_text == m.live_text && after.last_reading == m.last_reading
            &&& after.showing == m.showing && after.current_context == m.current_context
            &&& after.llm_seq == m.llm_seq && after.live_seq == m.live_seq
        }),
        ({
            let after = m.without_reconversion();
            &&& !after.reconverting
            &&& after.reconvert_original.len() == 0 && after.reconvert_reading.len() == 0
            &&& after.live_text == m.live_text && after.composing == m.composing
            &&& after.showing == m.showing
        }),
        ({
            let after = m.without_llm();
            &&& !after.llm_slot && after.llm_started is None && !after.llm_poll.pending()
            &&& after.awaiting_llm == m.awaiting_llm && after.llm_seq == m.llm_seq
            &&& after.live_text == m.live_text
        }),
        ({
            let after = m.abandoned();
            &&& after.clause_nav is None && after.reconvert_reading.len() == 0
            &&& after.monitor_committed_reading.len() == 0 && !after.debounce.pending()
            &&& after.live_enabled == m.live_enabled && after.llm_enabled == m.llm_enabled
            &&& after.live_seq == m.live_seq
            &&& !m.awaiting_llm ==> after.llm_seq == m.llm_seq && after.llm_poll == m.llm_poll
            &&& m.awaiting_llm ==> !after.llm_poll.pending()
        }),
        m.switched_off().live_enabled == m.live_enabled,
        m.switched_off().llm_seq == m.llm_seq && m.switched_off().live_seq == m.live_seq,
        m.switched_off().showing == m.showing && m.switched_off().clause_nav == m.clause_nav,
{
}

/// What is forgotten together: each step forgets its own, and nothing else.
pub proof fn forgetting_keeps_the_rest(m: ConversionModel)
    ensures
        m.input_reset() == (ConversionModel {
            composing: false,
            awaiting_llm: false,
            last_good: m.input_reset().last_good,
            ..m
        }),
        m.without_reconversion() == (ConversionModel {
            reconverting: false,
            reconvert_original: m.without_reconversion().reconvert_original,
            reconvert_reading: m.without_reconversion().reconvert_reading,
            ..m
        }),
        m.without_llm() == (ConversionModel {
            llm_poll: m.without_llm().llm_poll,
            llm_slot: false,
            llm_started: None,
            ..m
        }),
        ({
            let after = m.switched_off();
            &&& after == (ConversionModel {
                llm_poll: after.llm_poll,
                llm_slot: false,
                llm_started: None,
                composing: false,
                awaiting_llm: false,
                last_good: after.last_good,
                left_context: None,
                monitor_committed_reading: after.monitor_committed_reading,
                reconverting: false,
                reconvert_original: after.reconvert_original,
                reconvert_reading: after.reconvert_reading,
                debounce: after.debounce,
                current_context: None,
                live_text: after.live_text,
                ..m
            })
            &&& after.last_good.len() == 0 && after.live_text.len() == 0
            &&& after.monitor_committed_reading.len() == 0
            &&& after.reconvert_original.len() == 0 && after.reconvert_reading.len() == 0
            &&& !after.llm_poll.pending() && !after.debounce.pending()
        }),
        ({
            let after = m.abandoned();
            &&& after == (ConversionModel {
                llm_seq: after.llm_seq,
                llm_poll: after.llm_poll,
                llm_slot: after.llm_slot,
                llm_started: after.llm_started,
                composing: false,
                awaiting_llm: false,
                last_good: after.last_good,
                left_context: None,
                monitor_committed_reading: after.monitor_committed_reading,
                showing: false,
                clause_nav: None,
                reconverting: false,
                reconvert_original: after.reconvert_original,
                reconvert_reading: after.reconvert_reading,
                debounce: after.debounce,
                current_context: None,
                live_text: after.live_text,
                ..m
            })
            &&& after.last_good.len() == 0 && after.live_text.len() == 0
            &&& after.reconvert_original.len() == 0
            &&& m.awaiting_llm ==> after.llm_seq != m.llm_seq && !after.llm_slot
                && after.llm_started is None
            &&& !m.awaiting_llm ==> after.llm_slot == m.llm_slot && after.llm_started
                == m.llm_started
        }),
{
}

} // verus!
