//! The instances that the callbacks of timers and sessions find. Several instances can live in one
//! thread, and each callback finds the one that was registered last.

use vstd::prelude::*;
use crate::text_service::layout::Unadvise;
use crate::text_service::lifecycle::TextService;
use crate::text_service::prediction_ui::UiModel;
use crate::text_service::conversion::ConversionModel;
use crate::text_service::behavior::BehaviorQueue;
use crate::text_service::engine_link::EngineLink;

verus! {

/// The instance that each callback finds.
#[derive(Clone, Copy, Debug, PartialEq, Eq, Structural)]
pub struct Owners {
    pub debounce: Option<usize>,
    pub llm: Option<usize>,
    pub reload_retry: Option<usize>,
    pub prediction_retry: Option<usize>,
    pub prediction_poll: Option<usize>,
    pub layout: Option<usize>,
    pub behavior: Option<usize>,
}

/// Nobody, where it was `me`.
pub open spec fn unless_me(owner: Option<usize>, me: usize) -> Option<usize> {
    if owner == Some(me) {
        None
    } else {
        owner
    }
}

fn without(owner: Option<usize>, me: usize) -> (r: Option<usize>)
    ensures
        r == unless_me(owner, me),
{
    match owner {
        Some(id) => if id == me {
            None
        } else {
            Some(id)
        },
        None => None,
    }
}

impl Owners {
    pub fn new() -> (r: Self)
        ensures
            r == (Owners {
                debounce: None,
                llm: None,
                reload_retry: None,
                prediction_retry: None,
                prediction_poll: None,
                layout: None,
                behavior: None,
            }),
    {
        Owners {
            debounce: None,
            llm: None,
            reload_retry: None,
            prediction_retry: None,
            prediction_poll: None,
            layout: None,
            behavior: None,
        }
    }

    /// An instance is switched on.
    pub fn activated(&mut self, me: usize)
        ensures
            *final(self) == (Owners {
                layout: Some(me),
                prediction_retry: Some(me),
                prediction_poll: Some(me),
                behavior: Some(me),
                ..*old(self)
            }),
    {
        self.layout = Some(me);
        self.prediction_retry = Some(me);
        self.prediction_poll = Some(me);
        self.behavior = Some(me);
    }

    /// What is left when an instance is switched off.
    pub open spec fn after_deactivation(self, me: usize) -> Owners {
        Owners {
            layout: unless_me(self.layout, me),
            prediction_retry: unless_me(self.prediction_retry, me),
            prediction_poll: unless_me(self.prediction_poll, me),
            behavior: unless_me(self.behavior, me),
            ..self
        }
    }

    /// An instance is switched off.
    pub fn deactivated(&mut self, me: usize)
        ensures
            *final(self) == old(self).after_deactivation(me),
    {
        self.layout = without(self.layout, me);
        self.prediction_retry = without(self.prediction_retry, me);
        self.prediction_poll = without(self.prediction_poll, me);
        self.behavior = without(self.behavior, me);
    }

    /// What is left when an instance is gone.
    pub open spec fn after_drop(self, me: usize) -> Owners {
        Owners {
            debounce: unless_me(self.debounce, me),
            llm: unless_me(self.llm, me),
            reload_retry: unless_me(self.reload_retry, me),
            ..self.after_deactivation(me)
        }
    }

    /// An instance is gone: no callback finds it any more.
    pub fn dropped(&mut self, me: usize)
        ensures
            *final(self) == old(self).after_drop(me),
    {
        self.deactivated(me);
        self.debounce = without(self.debounce, me);
        self.llm = without(self.llm, me);
        self.reload_retry = without(self.reload_retry, me);
    }
}

/// No callback finds an instance that is gone, and every callback still finds any other instance
/// that it found before.
pub proof fn an_instance_that_is_gone_is_not_found(owners: Owners, me: usize, other: usize)
    requires
        other != me,
    ensures
        ({
            let left = owners.after_drop(me);
            &&& left.debounce != Some(me) && left.llm != Some(me) && left.reload_retry != Some(me)
            &&& left.prediction_retry != Some(me) && left.prediction_poll != Some(me)
            &&& left.layout != Some(me) && left.behavior != Some(me)
            &&& owners.debounce == Some(other) ==> left.debounce == Some(other)
            &&& owners.llm == Some(other) ==> left.llm == Some(other)
            &&& owners.reload_retry == Some(other) ==> left.reload_retry == Some(other)
            &&& owners.prediction_retry == Some(other) ==> left.prediction_retry == Some(other)
            &&& owners.prediction_poll == Some(other) ==> left.prediction_poll == Some(other)
            &&& owners.layout == Some(other) ==> left.layout == Some(other)
            &&& owners.behavior == Some(other) ==> left.behavior == Some(other)
        }),
{
}

/// What is still to be ended when an instance is gone without having been switched off.
pub struct Leftovers {
    pub layout: Option<Unadvise>,
    /// The timer for requests that were put off, 0 for none.
    pub behavior_flush_timer: usize,
}

impl TextService {
    /// The instance goes. Every timer that still runs has to be stopped, and nobody waits for a
    /// prediction any more.
    pub fn drop_instance(&mut self) -> (r: Leftovers)
        ensures
            r.layout == old(self).layout.reports(),
            r.behavior_flush_timer == old(self).behavior.behavior_flush_timer,
            final(self).layout == old(self).layout.unadvised(),
            final(self).conv@ == (ConversionModel {
                debounce: old(self).conv@.debounce.disarmed(),
                llm_poll: old(self).conv@.llm_poll.disarmed(),
                ..old(self).conv@
            }),
            final(self).link == (EngineLink {
                reload_retry_count: 0,
                ..old(self).link.without_retry()
            }),
            final(self).behavior == (BehaviorQueue {
                behavior_flush_timer: 0,
                ..old(self).behavior
            }),
            final(self).prediction@ == (UiModel {
                retry: old(self).prediction@.retry.disarmed(),
                poll: old(self).prediction@.poll.disarmed(),
                slot: false,
                ..old(self).prediction@
            }),
            *final(self) == (TextService {
                layout: final(self).layout,
                conv: final(self).conv,
                link: final(self).link,
                behavior: final(self).behavior,
                prediction: final(self).prediction,
                ..*old(self)
            }),
    {
        let layout = self.layout.unadvise_layout_sink();
        self.conv.disarm_debounce();
        self.conv.llm_poll.disarm();
        self.link.stop_reload_retry();
        let behavior_flush_timer: usize = self.behavior.behavior_flush_timer;
        self.behavior.behavior_flush_timer = 0;
        self.prediction.retry.disarm();
        self.prediction.poll.disarm();
        self.prediction.slot = false;
        Leftovers { layout, behavior_flush_timer }
    }
}

/// An instance that is switched off gives up just the callbacks that it owns; the other timers find
/// whom they found before.
pub proof fn an_instance_gives_up_what_it_owns(owners: Owners, me: usize, other: usize)
    requires
        other != me,
    ensures
        unless_me(Some(me), me) is None,
        unless_me(Some(other), me) == Some(other),
        unless_me(None, me) is None,
        ({
            let left = owners.after_deactivation(me);
            &&& left.layout != Some(me) && left.behavior != Some(me)
            &&& left.prediction_retry != Some(me) && left.prediction_poll != Some(me)
            &&& left.debounce == owners.debounce && left.llm == owners.llm
            &&& left.reload_retry == owners.reload_retry
            &&& owners.layout == Some(other) ==> left.layout == Some(other)
            &&& owners.behavior == Some(other) ==> left.behavior == Some(other)
            &&& owners.prediction_retry == Some(other) ==> left.prediction_retry == Some(other)
            &&& owners.prediction_poll == Some(other) ==> left.prediction_poll == Some(other)
        }),
{
}

/// An instance that is gone owns nothing; the others own what they owned.
pub proof fn a_gone_instance_owns_nothing(owners: Owners, me: usize, other: usize)
    requires
        other != me,
    ensures
        ({
            let left = owners.after_drop(me);
            &&& left.debounce != Some(me) && left.llm != Some(me) && left.reload_retry != Some(me)
            &&& left.prediction_retry != Some(me) && left.prediction_poll != Some(me)
            &&& left.layout != Some(me) && left.behavior != Some(me)
            &&& owners.debounce == Some(other) ==> left.debounce == Some(other)
            &&& owners.llm == Some(other) ==> left.llm == Some(other)
            &&& owners.reload_retry == Some(other) ==> left.reload_retry == Some(other)
            &&& owners.prediction_retry == Some(other) ==> left.prediction_retry == Some(other)
            &&& owners.prediction_poll == Some(other) ==> left.prediction_poll == Some(other)
            &&& owners.layout == Some(other) ==> left.layout == Some(other)
            &&& owners.behavior == Some(other) ==> left.behavior == Some(other)
        }),
{
}

} // verus!
