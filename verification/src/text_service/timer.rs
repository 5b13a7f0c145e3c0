//! One timer of the message loop. The library asks for it; the caller sets and stops it and
//! tells its number.

use vstd::prelude::*;

verus! {

/// A timer: running under a number, asked for, or neither.
#[derive(Clone, Copy, Debug, PartialEq, Eq, Structural)]
pub struct TimerSlot {
    /// The number of the running timer, 0 for none.
    pub id: usize,
    /// The delay of a timer that has to be set, in milliseconds.
    pub wanted: Option<u32>,
    /// The number of a timer that has to be stopped, 0 for none.
    pub stop: usize,
}

impl TimerSlot {
    /// No timer.
    pub open spec fn idle() -> TimerSlot {
        TimerSlot { id: 0, wanted: None, stop: 0 }
    }

    /// A timer runs or has to be set.
    pub open spec fn pending(self) -> bool {
        self.id != 0 || self.wanted is Some
    }

    /// The slot once a running timer is given up.
    pub open spec fn disarmed(self) -> TimerSlot {
        TimerSlot {
            id: 0,
            wanted: None,
            stop: if self.id != 0 {
                self.id
            } else {
                self.stop
            },
        }
    }

    /// The slot once a new timer is asked for in place of any other.
    pub open spec fn armed(self, delay_ms: u32) -> TimerSlot {
        TimerSlot { wanted: Some(delay_ms), ..self.disarmed() }
    }

    pub fn new() -> (r: Self)
        ensures
            r == TimerSlot::idle(),
    {
        TimerSlot { id: 0, wanted: None, stop: 0 }
    }

    /// Whether a timer runs or has to be set.
    pub fn is_pending(&self) -> (r: bool)
        ensures
            r == self.pending(),
    {
        self.id != 0 || self.wanted.is_some()
    }

    /// Gives the timer up.
    pub fn disarm(&mut self)
        ensures
            *final(self) == old(self).disarmed(),
    {
        if self.id != 0 {
            self.stop = self.id;
            self.id = 0;
        }
        self.wanted = None;
    }

    /// Asks for a timer in place of any other.
    pub fn arm(&mut self, delay_ms: u32)
        ensures
            *final(self) == old(self).armed(delay_ms),
    {
        self.disarm();
        self.wanted = Some(delay_ms);
    }

    /// Takes the number of the timer that has to be stopped, 0 for none.
    pub fn take_stop(&mut self) -> (r: usize)
        ensures
            r == old(self).stop,
            *final(self) == (TimerSlot { stop: 0, ..*old(self) }),
    {
        let stop: usize = self.stop;
        self.stop = 0;
        stop
    }

    /// The timer that was asked for runs under `id`; 0 tells that it could not be set.
    pub fn set(&mut self, id: usize)
        ensures
            *final(self) == (TimerSlot { id, wanted: None, ..*old(self) }),
    {
        self.id = id;
        self.wanted = None;
    }

    /// The slot once the timer `id` fired.
    pub open spec fn fired(self, id: usize) -> TimerSlot {
        if self.id == id {
            TimerSlot { id: 0, ..self }
        } else {
            self
        }
    }

    /// A timer fired. `true` if it is the one that runs; one that was replaced does nothing.
    pub fn fire(&mut self, id: usize) -> (r: bool)
        ensures
            r == (old(self).id == id),
            *final(self) == old(self).fired(id),
    {
        if self.id != id {
            return false;
        }
        self.id = 0;
        true
    }
}

/// A timer that was given up or replaced does nothing when it fires late.
pub proof fn a_replaced_timer_does_nothing(slot: TimerSlot, old_id: usize, delay_ms: u32)
    requires
        old_id != 0,
        slot.id == old_id,
    ensures
        slot.disarmed().id != old_id,
        slot.armed(delay_ms).id != old_id,
        slot.disarmed().stop == old_id,
        slot.armed(delay_ms).stop == old_id,
{
}

/// Whoever arms a slot gets one timer, with just the delay that was asked for; whoever gives it up
/// gets none. No running timer is forgotten: it is handed over to be stopped.
pub proof fn a_slot_holds_one_timer(slot: TimerSlot, delay_ms: u32)
    ensures
        slot.armed(delay_ms).wanted == Some(delay_ms),
        slot.armed(delay_ms).id == 0,
        slot.armed(delay_ms).pending(),
        slot.disarmed().wanted is None,
        slot.disarmed().id == 0,
        !slot.disarmed().pending(),
        slot.id == 0 ==> slot.disarmed().stop == slot.stop && slot.armed(delay_ms).stop == slot.stop,
        slot.pending() <==> slot.id != 0 || slot.wanted is Some,
        !TimerSlot::idle().pending(),
        TimerSlot::idle().stop == 0,
{
}

/// A timer fires once: the one that runs is then over, and any other changes nothing.
pub proof fn a_timer_fires_once(slot: TimerSlot, id: usize)
    ensures
        slot.id != id ==> slot.fired(id) == slot,
        slot.id == id ==> slot.fired(id).id == 0 && slot.fired(id).wanted == slot.wanted
            && slot.fired(id).stop == slot.stop,
        id != 0 ==> slot.fired(id).id != id,
{
}

} // verus!
