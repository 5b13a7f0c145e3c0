//! Drawing what is typed: after a pause, after a partial commit, and after a cancelled composition.

use vstd::prelude::*;
use crate::text_service::composition::{next_redraw, CompositionState};
use crate::text_service::conversion::{next_seq, ConversionModel};
use crate::text_service::lifecycle::TextService;

verus! {

/// What follows a pause in typing.
#[derive(Clone, Copy, Debug, PartialEq, Eq, Structural)]
pub enum DebounceStep {
    Stop,
    /// The rest of a partial commit is drawn first.
    Redraw { ctx: usize },
    /// The engine converts, and may commit the first part by itself.
    Convert { ctx: usize, seq: u64 },
}

/// How a composition is cancelled.
#[derive(Clone, Copy, Debug, PartialEq, Eq, Structural)]
pub enum CancelStart {
    /// Its text is committed already: it is closed, and the text stays.
    CloseOnly,
    /// Its text goes away with it.
    Cancel,
}

impl TextService {
    /// What follows where nothing has to be drawn first.
    pub open spec fn live_step(self, ctx: usize) -> DebounceStep {
        if self.conv@.live_enabled {
            DebounceStep::Convert { ctx, seq: next_seq(self.conv@.live_seq) }
        } else {
            DebounceStep::Stop
        }
    }

    /// The conversion once that follows.
    pub open spec fn live_asked(self) -> ConversionModel {
        if self.conv@.live_enabled {
            ConversionModel { live_seq: next_seq(self.conv@.live_seq), ..self.conv@ }
        } else {
            self.conv@
        }
    }

    fn convert_live(&mut self, ctx: usize) -> (r: DebounceStep)
        ensures
            r == old(self).live_step(ctx),
            final(self).conv@ == old(self).live_asked(),
            *final(self) == (TextService { conv: final(self).conv, ..*old(self) }),
    {
        if !self.conv.live_enabled {
            return DebounceStep::Stop;
        }
        let seq: u64 = self.conv.bump_live_seq();
        DebounceStep::Convert { ctx, seq }
    }

    /// The pause timer fired. A timer that was replaced does nothing.
    pub fn begin_debounce_convert(&mut self, id: usize) -> (r: DebounceStep)
        ensures
            ({
                let s = *old(self);
                let fired = ConversionModel {
                    debounce: s.conv@.debounce.fired(id),
                    ..s.conv@
                };
                if s.conv@.debounce.id != id {
                    r == DebounceStep::Stop && *final(self) == s
                } else if !s.conv@.composing {
                    &&& r == DebounceStep::Stop
                    &&& final(self).conv@ == fired
                    &&& final(self).comp == s.comp.without_redraw()
                } else if s.conv@.current_context is None {
                    r == DebounceStep::Stop && final(self).conv@ == fired && final(self).comp
                        == s.comp
                } else if s.comp.partial_preedit_redraw_pending {
                    &&& r == (DebounceStep::Redraw { ctx: s.conv@.current_context->0 })
                    &&& final(self).conv@ == fired
                    &&& final(self).comp == s.comp
                } else {
                    &&& r == s.live_step(s.conv@.current_context->0)
                    &&& final(self).conv@ == (ConversionModel {
                        debounce: fired.debounce,
                        ..s.live_asked()
                    })
                    &&& final(self).comp == s.comp
                }
            }),
            *final(self) == (TextService {
                conv: final(self).conv,
                comp: final(self).comp,
                ..*old(self)
            }),
    {
        if !self.conv.debounce.fire(id) {
            return DebounceStep::Stop;
        }
        if !self.conv.composing {
            self.comp.forget_redraw();
            return DebounceStep::Stop;
        }
        let ctx = match self.conv.current_context {
            Some(ctx) => ctx,
            None => return DebounceStep::Stop,
        };
        if self.comp.partial_preedit_redraw_pending {
            return DebounceStep::Redraw { ctx };
        }
        self.convert_live(ctx)
    }

    /// The redraw is tried again after a pause, a bounded number of times.
    pub open spec fn redraw_retried(self) -> (CompositionState, ConversionModel) {
        let next = next_redraw(self.comp.partial_preedit_redraw_retries);
        if !self.comp.partial_preedit_redraw_pending {
            (CompositionState { partial_preedit_redraw_retries: 0, ..self.comp }, self.conv@)
        } else {
            match next {
                Some(n) => (
                    CompositionState { partial_preedit_redraw_retries: n, ..self.comp },
                    self.conv@.waits_for_pause(true),
                ),
                None => (self.comp, self.conv@),
            }
        }
    }

    /// Tries the redraw again later.
    pub fn arm_partial_preedit_redraw_retry(&mut self)
        ensures
            (final(self).comp, final(self).conv@) == old(self).redraw_retried(),
            *final(self) == (TextService {
                conv: final(self).conv,
                comp: final(self).comp,
                ..*old(self)
            }),
    {
        if self.comp.arm_partial_preedit_redraw_retry() {
            self.conv.arm_debounce(true);
        }
    }

    /// The rest of the partial commit was drawn or not. Until it is, nothing is converted.
    pub fn debounce_redrawn(&mut self, ctx: usize, redrawn: bool) -> (r: DebounceStep)
        ensures
            redrawn ==> r == old(self).live_step(ctx) && final(self).conv@ == old(self).live_asked()
                && final(self).comp == old(self).comp,
            !redrawn ==> r == DebounceStep::Stop && (final(self).comp, final(self).conv@) == old(self).redraw_retried(),
            *final(self) == (TextService {
                conv: final(self).conv,
                comp: final(self).comp,
                ..*old(self)
            }),
    {
        if !redrawn {
            self.arm_partial_preedit_redraw_retry();
            return DebounceStep::Stop;
        }
        self.convert_live(ctx)
    }

    /// The drawing of a prediction is gone: the context in which the rest of a partial commit can
    /// be drawn now.
    pub fn resume_preedit_after_prediction_cleanup(&self) -> (r: Option<usize>)
        ensures
            r == (if self.comp.partial_preedit_redraw_pending {
                self.conv@.current_context
            } else {
                None
            }),
    {
        if self.comp.partial_preedit_redraw_pending {
            self.conv.current_context
        } else {
            None
        }
    }

    /// It was drawn or not.
    pub fn preedit_resumed(&mut self, redrawn: bool)
        ensures
            redrawn ==> final(self).comp == old(self).comp && final(self).conv@ == old(self).conv@.waits_for_pause(old(self).comp.partial_preedit_redraw_pending),
            !redrawn ==> (final(self).comp, final(self).conv@) == old(self).redraw_retried(),
            *final(self) == (TextService {
                conv: final(self).conv,
                comp: final(self).comp,
                ..*old(self)
            }),
    {
        if redrawn {
            self.conv.arm_debounce(self.comp.partial_preedit_redraw_pending);
        } else {
            self.arm_partial_preedit_redraw_retry();
        }
    }

    /// The preedit was drawn or not. A composition that was really started for it begins its
    /// lifecycle even where a later step failed.
    pub fn preedit_drawn(&mut self, applied: bool) -> (r: bool)
        ensures
            r == applied,
            *final(self) == (TextService { comp: old(self).comp.noticed(), ..*old(self) }),
    {
        self.comp.consume_started_composition();
        applied
    }

    /// How the composition is cancelled.
    pub fn begin_cancel(&self) -> (r: CancelStart)
        ensures
            r == (if self.comp.composition_end_pending {
                CancelStart::CloseOnly
            } else {
                CancelStart::Cancel
            }),
    {
        if self.comp.composition_end_pending {
            CancelStart::CloseOnly
        } else {
            CancelStart::Cancel
        }
    }

    /// The composition was cancelled or not. What stood around it is forgotten either way, so that
    /// it never goes along with another document's text.
    pub fn do_cancel(&mut self, ok: bool) -> (r: bool)
        ensures
            r == ok,
            final(self).conv@ == old(self).conv@.without_surroundings(),
            *final(self) == (TextService { conv: final(self).conv, ..*old(self) }),
    {
        self.conv.forget_surroundings();
        ok
    }

    /// The host asked to cancel the composition: no pause is waited for any more. The result tells
    /// how the composition is cancelled.
    pub fn begin_abort(&mut self) -> (r: CancelStart)
        ensures
            r == (if old(self).comp.composition_end_pending {
                CancelStart::CloseOnly
            } else {
                CancelStart::Cancel
            }),
            final(self).conv@ == (ConversionModel {
                debounce: old(self).conv@.debounce.disarmed(),
                ..old(self).conv@
            }),
            *final(self) == (TextService { conv: final(self).conv, ..*old(self) }),
    {
        self.conv.disarm_debounce();
        self.begin_cancel()
    }

    /// The composition was cancelled or not. What was typed is forgotten once it was; `true` asks
    /// for the end of the session. A host that refuses keeps everything but what stood around the
    /// composition.
    pub fn finish_abort(&mut self, cancelled: bool) -> (r: bool)
        ensures
            r == cancelled,
            final(self).conv@ == (if cancelled {
                ConversionModel {
                    live_text: Seq::empty(),
                    current_context: None,
                    ..old(self).conv@.without_surroundings().input_reset()
                }
            } else {
                old(self).conv@.without_surroundings()
            }),
            *final(self) == (TextService { conv: final(self).conv, ..*old(self) }),
    {
        if self.do_cancel(cancelled) {
            self.conv.reset_input();
            self.conv.live_text = String::new();
            self.conv.current_context = None;
        }
        cancelled
    }
}

/// After a pause the engine converts what is shown, under a new number, exactly where live
/// conversion is on; nothing else of the conversion changes.
pub proof fn a_pause_converts_under_a_new_number(s: TextService, ctx: usize)
    ensures
        s.conv@.live_enabled ==> {
            &&& s.live_step(ctx) is Convert
            &&& s.live_step(ctx)->Convert_ctx == ctx
            &&& s.live_step(ctx)->seq == s.live_asked().live_seq
            &&& s.live_asked().live_seq != s.conv@.live_seq
        },
        !s.conv@.live_enabled ==> s.live_step(ctx) == DebounceStep::Stop && s.live_asked() == s.conv@,
        s.live_asked().live_text == s.conv@.live_text,
        s.live_asked().last_reading == s.conv@.last_reading,
        s.live_asked().debounce == s.conv@.debounce,
{
}

/// The rest of a partial commit that could not be drawn is drawn after another pause, five times at
/// most; once nothing has to be drawn, the count starts over.
pub proof fn an_undrawn_rest_is_tried_again(s: TextService)
    ensures
        ({
            let (comp, conv) = s.redraw_retried();
            let pending = s.comp.partial_preedit_redraw_pending;
            let tries = s.comp.partial_preedit_redraw_retries;
            &&& !pending ==> comp.partial_preedit_redraw_retries == 0 && conv == s.conv@
            &&& pending && tries < 5 ==> comp.partial_preedit_redraw_retries == tries + 1
                && conv.debounce.wanted == Some(30u32)
            &&& pending && tries >= 5 ==> comp == s.comp && conv == s.conv@
            &&& comp.partial_preedit_redraw_pending == pending
            &&& comp.composition == s.comp.composition
            &&& conv.live_text == s.conv@.live_text && conv.live_seq == s.conv@.live_seq
        }),
{
}

/// A pause touches the number of the conversion, and a rest that is drawn again its count and the
/// pause; nothing else.
pub proof fn a_pause_keeps_the_rest(s: TextService)
    ensures
        s.live_asked() == (ConversionModel { live_seq: s.live_asked().live_seq, ..s.conv@ }),
        ({
            let (comp, conv) = s.redraw_retried();
            &&& comp == (CompositionState {
                partial_preedit_redraw_retries: comp.partial_preedit_redraw_retries,
                ..s.comp
            })
            &&& conv == (ConversionModel { debounce: conv.debounce, ..s.conv@ })
        }),
{
}

} // verus!
