//! The composition in the host's document, the close that may stay owed after a commit, and the
//! one key that the host may have been promised meanwhile.

use vstd::prelude::*;

verus! {

/// How often the rest of a partial commit is drawn again.
pub const PARTIAL_REDRAW_RETRY_MAX: u8 = 5;

/// How often a committed composition is asked to end, the first time included.
pub const COMPOSITION_END_RETRY_MAX: u8 = 3;

/// The number of the next attempt to draw the rest of a partial commit.
pub open spec fn next_redraw(current: u8) -> Option<u8> {
    if current < PARTIAL_REDRAW_RETRY_MAX {
        Some((current + 1) as u8)
    } else {
        None
    }
}

/// The number of the next attempt, if there is one.
pub fn next_partial_redraw_retry(current: u8) -> (r: Option<u8>)
    ensures
        r == next_redraw(current),
{
    let next: u8 = current.saturating_add(1);
    if next <= PARTIAL_REDRAW_RETRY_MAX && current < u8::MAX {
        Some(next)
    } else {
        None
    }
}

/// The number of attempts to end a composition after one more, if another may follow.
pub open spec fn next_end(current: u8) -> Option<u8> {
    if current + 1 < COMPOSITION_END_RETRY_MAX {
        Some((current + 1) as u8)
    } else {
        None
    }
}

/// The number of attempts after one more, if another may follow.
pub fn next_composition_end_retry(current: u8) -> (r: Option<u8>)
    ensures
        r == next_end(current),
{
    let next: u8 = current.saturating_add(1);
    if next < COMPOSITION_END_RETRY_MAX {
        Some(next)
    } else {
        None
    }
}

/// What tells one physical key event from another.
#[derive(Clone, Copy, Debug, PartialEq, Eq, Structural)]
pub struct PendingEndKeySignature {
    pub context_identity: usize,
    pub raw_vk: u32,
    pub normalized_vk: u32,
    pub lparam: isize,
    pub modifiers: u8,
}

impl PendingEndKeySignature {
    /// The signature of an event in the given context, if the context has an identity.
    pub fn from_context(
        context: Option<usize>,
        raw_vk: u32,
        normalized_vk: u32,
        lparam: isize,
        modifiers: u8,
    ) -> (r: Option<Self>)
        ensures
            r is Some <==> context is Some,
            r is Some ==> r->0 == (PendingEndKeySignature {
                context_identity: context->0,
                raw_vk,
                normalized_vk,
                lparam,
                modifiers,
            }),
    {
        match context {
            None => None,
            Some(identity) => Some(
                PendingEndKeySignature::synthetic(
                    identity,
                    raw_vk,
                    normalized_vk,
                    lparam,
                    modifiers,
                ),
            ),
        }
    }

    /// The signature of an event in a context of known identity.
    pub fn synthetic(
        context_identity: usize,
        raw_vk: u32,
        normalized_vk: u32,
        lparam: isize,
        modifiers: u8,
    ) -> (r: Self)
        ensures
            r == (PendingEndKeySignature {
                context_identity,
                raw_vk,
                normalized_vk,
                lparam,
                modifiers,
            }),
    {
        PendingEndKeySignature { context_identity, raw_vk, normalized_vk, lparam, modifiers }
    }
}

#[derive(Clone, Copy, Debug, PartialEq, Eq, Structural)]
pub struct ReservationEntry {
    pub signature: PendingEndKeySignature,
    pub generation: u64,
}

/// The key that the host was told would be eaten, until the key itself arrives.
#[derive(Clone, Copy, Debug, PartialEq, Eq, Structural)]
pub struct PendingEndKeyReservation {
    pub reservation: Option<ReservationEntry>,
}

impl Default for PendingEndKeyReservation {
    fn default() -> (r: Self)
        ensures
            r.reservation is None,
    {
        PendingEndKeyReservation { reservation: None }
    }
}

impl PendingEndKeyReservation {
    /// Reserves the key, unless another one is reserved.
    pub fn reserve(&mut self, signature: PendingEndKeySignature, generation: u64) -> (r: bool)
        ensures
            r == (old(self).reservation is None),
            r ==> final(self).reservation == Some(ReservationEntry { signature, generation }),
            !r ==> *final(self) == *old(self),
    {
        if self.reservation.is_some() {
            return false;
        }
        self.reservation = Some(ReservationEntry { signature, generation });
        true
    }

    /// Whether the reservation is from before the given generation.
    pub fn is_stale(&self, generation: u64) -> (r: bool)
        ensures
            r == (self.reservation is Some && self.reservation->0.generation != generation),
    {
        match self.reservation {
            Some(entry) => entry.generation != generation,
            None => false,
        }
    }

    /// Whether a key is reserved.
    pub fn is_occupied(&self) -> (r: bool)
        ensures
            r == (self.reservation is Some),
    {
        self.reservation.is_some()
    }

    /// Takes the reservation and says whether it was for this key. It is gone either way, so
    /// that a later event with the same key code is not eaten for it.
    pub fn take_if_matches(&mut self, signature: PendingEndKeySignature, generation: u64) -> (r: bool)
        ensures
            r == (old(self).reservation == Some(ReservationEntry { signature, generation })),
            final(self).reservation is None,
    {
        match self.reservation.take() {
            None => false,
            Some(entry) => entry.generation == generation && entry.signature == signature,
        }
    }

    /// Drops the reservation.
    pub fn invalidate(&mut self)
        ensures
            final(self).reservation is None,
    {
        self.reservation = None;
    }

    /// The reserved key.
    pub fn signature(&self) -> (r: Option<PendingEndKeySignature>)
        ensures
            r == (match self.reservation {
                Some(e) => Some(e.signature),
                None => None,
            }),
    {
        match self.reservation {
            Some(entry) => Some(entry.signature),
            None => None,
        }
    }

    /// The generation of the reservation.
    pub fn generation(&self) -> (r: Option<u64>)
        ensures
            r == (match self.reservation {
                Some(e) => Some(e.generation),
                None => None,
            }),
    {
        match self.reservation {
            Some(entry) => Some(entry.generation),
            None => None,
        }
    }
}

/// What the host is told when it asks about a key.
#[derive(Clone, Copy, Debug, PartialEq, Eq, Structural)]
pub enum PendingEndTestDecision {
    /// The key is eaten when it comes.
    Reserve,
    /// Another key is reserved: this one is not eaten.
    Busy,
    /// No close is owed: the usual rules apply.
    Normal,
}

/// How far the end of a composition got.
#[derive(Clone, Copy, Debug, PartialEq, Eq, Structural)]
pub enum CompositionEndStatus {
    Idle,
    Closed,
    /// The host was busy; it may be asked again.
    Retryable,
    /// The host will not end it.
    Terminal,
}

/// What became of the composition once its text was committed.
#[derive(Clone, Copy, Debug, PartialEq, Eq, Structural)]
pub enum CommitEnd {
    /// It ended.
    Closed,
    /// It did not; it is owned by this context.
    Owed { context: usize, status: CompositionEndStatus },
}

/// The composition and all that is owed around it. Handles and contexts stand for the objects
/// of the host by their identity.
#[derive(Clone, Copy, Debug, PartialEq, Eq, Structural)]
pub struct CompositionState {
    pub composition: Option<usize>,
    pub composition_end_pending: bool,
    pub composition_end_context: Option<usize>,
    pub composition_end_status: CompositionEndStatus,
    pub composition_end_retry_count: u8,
    pub composition_generation: u64,
    pub pending_end_generation: u64,
    pub key_pair_generation: u64,
    pub composition_started_signal: bool,
    pub pending_end_test_reservation: PendingEndKeyReservation,
    pub partial_preedit_redraw_pending: bool,
    pub partial_preedit_redraw_retries: u8,
}

/// The generation after this one.
pub open spec fn next_generation(g: u64) -> u64 {
    if g == u64::MAX {
        0
    } else {
        (g + 1) as u64
    }
}

fn advance(g: u64) -> (r: u64)
    ensures
        r == next_generation(g),
        r != g,
{
    g.wrapping_add(1)
}

impl CompositionState {
    /// The state in which nothing is composed and nothing owed.
    pub open spec fn initial() -> CompositionState {
        CompositionState {
            composition: None,
            composition_end_pending: false,
            composition_end_context: None,
            composition_end_status: CompositionEndStatus::Idle,
            composition_end_retry_count: 0,
            composition_generation: 0,
            pending_end_generation: 0,
            key_pair_generation: 0,
            composition_started_signal: false,
            pending_end_test_reservation: PendingEndKeyReservation { reservation: None },
            partial_preedit_redraw_pending: false,
            partial_preedit_redraw_retries: 0,
        }
    }

    /// The keys of an earlier lifecycle are forgotten.
    pub open spec fn without_reservation(self) -> CompositionState {
        CompositionState {
            pending_end_test_reservation: PendingEndKeyReservation { reservation: None },
            key_pair_generation: next_generation(self.key_pair_generation),
            ..self
        }
    }

    /// A composition that was really started has begun its lifecycle.
    pub open spec fn noticed(self) -> CompositionState {
        if self.composition_started_signal {
            CompositionState {
                composition_started_signal: false,
                composition_generation: next_generation(self.composition_generation),
                ..self.without_reservation()
            }
        } else {
            self
        }
    }

    /// Nothing is composed and nothing owed; a late callback finds a new generation.
    pub open spec fn released(self) -> CompositionState {
        CompositionState {
            composition: None,
            composition_end_pending: false,
            composition_end_context: None,
            composition_end_status: CompositionEndStatus::Closed,
            composition_end_retry_count: 0,
            composition_generation: next_generation(self.composition_generation),
            ..self
        }
    }

    /// No rest of a partial commit has to be drawn.
    pub open spec fn without_redraw(self) -> CompositionState {
        CompositionState {
            partial_preedit_redraw_pending: false,
            partial_preedit_redraw_retries: 0,
            ..self
        }
    }

    /// The host ended a composition that was owed its close. The generation stays, and so does a
    /// promised key.
    pub open spec fn closed_by_host(self) -> CompositionState {
        CompositionState {
            composition: None,
            composition_end_pending: false,
            composition_end_context: None,
            composition_end_status: CompositionEndStatus::Closed,
            composition_end_retry_count: 0,
            ..self
        }
    }

    /// The owed close is settled: the handle is gone and a late callback finds a new generation.
    pub open spec fn settled(self, status: CompositionEndStatus) -> CompositionState {
        if self.composition_end_pending {
            CompositionState {
                composition: None,
                composition_end_pending: false,
                composition_end_context: None,
                composition_end_status: status,
                composition_end_retry_count: 0,
                composition_generation: next_generation(self.composition_generation),
                ..self
            }
        } else {
            self
        }
    }

    /// The state after an attempt to end the composition came to `status`.
    pub open spec fn after_attempt(self, status: CompositionEndStatus) -> CompositionState {
        if !self.composition_end_pending {
            self
        } else {
            match status {
                CompositionEndStatus::Closed => self.settled(CompositionEndStatus::Closed),
                CompositionEndStatus::Terminal => self.settled(CompositionEndStatus::Terminal),
                _ => match next_end(self.composition_end_retry_count) {
                    Some(next) => CompositionState {
                        composition_end_retry_count: next,
                        composition_end_status: CompositionEndStatus::Retryable,
                        ..self
                    },
                    None => self.settled(CompositionEndStatus::Terminal),
                },
            }
        }
    }

    /// A fresh state.
    pub fn new() -> (r: Self)
        ensures
            r == CompositionState::initial(),
    {
        CompositionState {
            composition: None,
            composition_end_pending: false,
            composition_end_context: None,
            composition_end_status: CompositionEndStatus::Idle,
            composition_end_retry_count: 0,
            composition_generation: 0,
            pending_end_generation: 0,
            key_pair_generation: 0,
            composition_started_signal: false,
            pending_end_test_reservation: PendingEndKeyReservation { reservation: None },
            partial_preedit_redraw_pending: false,
            partial_preedit_redraw_retries: 0,
        }
    }

    /// The host asks whether a key will be eaten. While a close is owed exactly one key is
    /// promised; once it is not owed any more, an old promise has expired.
    pub fn pending_end_test_decision(&mut self, signature: PendingEndKeySignature) -> (r:
        PendingEndTestDecision)
        ensures
            r == (if !old(self).composition_end_pending {
                PendingEndTestDecision::Normal
            } else if old(self).pending_end_test_reservation.reservation is Some && old(self).pending_end_test_reservation.reservation->0.generation == old(self).key_pair_generation {
                PendingEndTestDecision::Busy
            } else {
                PendingEndTestDecision::Reserve
            }),
            *final(self) == (match r {
                PendingEndTestDecision::Normal => if old(self).pending_end_test_reservation.reservation is Some {
                    old(self).without_reservation()
                } else {
                    *old(self)
                },
                PendingEndTestDecision::Busy => *old(self),
                PendingEndTestDecision::Reserve => CompositionState {
                    pending_end_test_reservation: PendingEndKeyReservation {
                        reservation: Some(
                            ReservationEntry {
                                signature,
                                generation: old(self).key_pair_generation,
                            },
                        ),
                    },
                    ..*old(self)
                },
            }),
    {
        let generation: u64 = self.key_pair_generation;
        if !self.composition_end_pending {
            if self.pending_end_test_reservation.is_occupied() {
                self.pending_end_test_reservation.invalidate();
                self.bump_key_pair_generation();
            }
            return PendingEndTestDecision::Normal;
        }
        if self.pending_end_test_reservation.is_stale(generation) {
            self.pending_end_test_reservation.invalidate();
        }
        if self.pending_end_test_reservation.is_occupied() {
            PendingEndTestDecision::Busy
        } else if self.pending_end_test_reservation.reserve(signature, generation) {
            PendingEndTestDecision::Reserve
        } else {
            PendingEndTestDecision::Busy
        }
    }

    /// The key itself arrives: was it the promised one? The promise is used up either way.
    pub fn take_pending_end_test(&mut self, signature: PendingEndKeySignature) -> (r: bool)
        ensures
            r == (old(self).pending_end_test_reservation.reservation == Some(
                ReservationEntry { signature, generation: old(self).key_pair_generation },
            )),
            *final(self) == (CompositionState {
                pending_end_test_reservation: PendingEndKeyReservation { reservation: None },
                ..*old(self)
            }),
    {
        let generation: u64 = self.key_pair_generation;
        self.pending_end_test_reservation.take_if_matches(signature, generation)
    }

    /// A border between lifecycles: promises from before it are void.
    pub fn invalidate_pending_end_test_reservation(&mut self)
        ensures
            *final(self) == old(self).without_reservation(),
    {
        self.pending_end_test_reservation.invalidate();
        self.bump_key_pair_generation();
    }

    /// Starts a new generation of key pairs.
    pub fn bump_key_pair_generation(&mut self)
        ensures
            *final(self) == (CompositionState {
                key_pair_generation: next_generation(old(self).key_pair_generation),
                ..*old(self)
            }),
            final(self).key_pair_generation != old(self).key_pair_generation,
    {
        self.key_pair_generation = advance(self.key_pair_generation);
    }

    /// Whether the owed close belongs to the current generation of compositions.
    pub fn pending_end_generation_is_current(&self) -> (r: bool)
        ensures
            r == (self.pending_end_generation == self.composition_generation),
    {
        self.pending_end_generation == self.composition_generation
    }

    /// A composition was really started: its lifecycle begins once, however many entries of the
    /// host notice it.
    pub fn consume_started_composition(&mut self)
        ensures
            *final(self) == old(self).noticed(),
    {
        if !self.composition_started_signal {
            return;
        }
        self.composition_started_signal = false;
        self.invalidate_pending_end_test_reservation();
        self.composition_generation = advance(self.composition_generation);
    }

    /// Lets go of everything: the service is switched off.
    pub fn release(&mut self)
        ensures
            *final(self) == old(self).released(),
    {
        self.composition = None;
        self.composition_end_pending = false;
        self.composition_end_context = None;
        self.composition_end_status = CompositionEndStatus::Closed;
        self.composition_end_retry_count = 0;
        self.composition_generation = advance(self.composition_generation);
    }

    /// No rest of a partial commit has to be drawn.
    pub fn forget_redraw(&mut self)
        ensures
            *final(self) == old(self).without_redraw(),
    {
        self.partial_preedit_redraw_pending = false;
        self.partial_preedit_redraw_retries = 0;
    }

    /// The host ended the composition that was owed its close. The result is the context that
    /// owned it.
    pub fn close_by_host(&mut self) -> (r: Option<usize>)
        ensures
            r == old(self).composition_end_context,
            *final(self) == old(self).closed_by_host(),
    {
        let owner = self.composition_end_context;
        self.composition = None;
        self.composition_end_pending = false;
        self.composition_end_context = None;
        self.composition_end_status = CompositionEndStatus::Closed;
        self.composition_end_retry_count = 0;
        owner
    }

    /// The composition is left to the host, whatever becomes of it.
    pub open spec fn abandoned(self) -> CompositionState {
        let left = if self.composition_end_pending {
            self.settled(CompositionEndStatus::Terminal)
        } else {
            CompositionState { composition: None, composition_end_context: None, ..self }
        };
        left.without_redraw().without_reservation()
    }

    /// Leaves the composition to the host.
    pub fn abandon(&mut self)
        ensures
            *final(self) == old(self).abandoned(),
    {
        if self.composition_end_pending {
            self.abandon_pending_composition_end();
        } else {
            self.composition = None;
            self.composition_end_context = None;
        }
        self.forget_redraw();
        self.invalidate_pending_end_test_reservation();
    }

    /// An attempt to end the composition is over. `false` keeps the close owed for another
    /// attempt; `true` releases the input, because the composition ended or is given up.
    pub fn apply_pending_end_attempt(&mut self, status: CompositionEndStatus) -> (r: bool)
        ensures
            *final(self) == old(self).after_attempt(status),
            r == !final(self).composition_end_pending,
    {
        if !self.composition_end_pending {
            return true;
        }
        self.composition_end_status = status;
        match status {
            CompositionEndStatus::Closed => {
                self.clear_pending_composition_end(CompositionEndStatus::Closed);
                true
            },
            CompositionEndStatus::Terminal => {
                self.abandon_pending_composition_end();
                true
            },
            _ => {
                match next_composition_end_retry(self.composition_end_retry_count) {
                    Some(next) => {
                        self.composition_end_retry_count = next;
                        self.composition_end_status = CompositionEndStatus::Retryable;
                        false
                    },
                    None => {
                        self.abandon_pending_composition_end();
                        true
                    },
                }
            },
        }
    }

    fn clear_pending_composition_end(&mut self, status: CompositionEndStatus)
        ensures
            *final(self) == old(self).settled(status),
    {
        if !self.composition_end_pending {
            return;
        }
        self.composition_end_pending = false;
        self.composition = None;
        self.composition_end_context = None;
        self.composition_end_status = status;
        self.composition_end_retry_count = 0;
        self.composition_generation = advance(self.composition_generation);
    }

    /// Gives an owed close up. The text is in the document already.
    pub fn abandon_pending_composition_end(&mut self)
        ensures
            *final(self) == old(self).settled(CompositionEndStatus::Terminal),
    {
        self.clear_pending_composition_end(CompositionEndStatus::Terminal);
    }

    /// Begins an attempt to end a committed composition: in the context that owns it, whatever
    /// context the key came in. Nothing is to be done if no close is owed.
    pub fn begin_finish_pending(&mut self, ctx: usize) -> (r: Option<usize>)
        ensures
            r == (if old(self).composition_end_pending {
                match old(self).composition_end_context {
                    Some(owner) => Some(owner),
                    None => Some(ctx),
                }
            } else {
                None
            }),
            *final(self) == (if old(self).composition_end_pending {
                CompositionState {
                    composition_end_status: CompositionEndStatus::Idle,
                    ..*old(self)
                }
            } else {
                *old(self)
            }),
    {
        if !self.composition_end_pending {
            return None;
        }
        self.composition_end_status = CompositionEndStatus::Idle;
        match self.composition_end_context {
            Some(owner) => Some(owner),
            None => Some(ctx),
        }
    }

    /// Ends the attempt. What the session itself reported counts before what the request for
    /// the session reported, which matters only if the session did not run.
    pub fn finish_pending_composition(
        &mut self,
        in_session: CompositionEndStatus,
        of_request: CompositionEndStatus,
    ) -> (r: bool)
        ensures
            *final(self) == old(self).after_attempt(
                if in_session is Idle {
                    of_request
                } else {
                    in_session
                },
            ),
            r == !final(self).composition_end_pending,
    {
        let status = match in_session {
            CompositionEndStatus::Idle => of_request,
            other => other,
        };
        self.apply_pending_end_attempt(status)
    }

    /// Begins a commit. While an earlier close is owed nothing may be written into the same
    /// composition.
    pub fn begin_commit(&mut self) -> (r: bool)
        ensures
            r == !old(self).composition_end_pending,
            *final(self) == (if r {
                CompositionState {
                    pending_end_generation: old(self).composition_generation,
                    ..*old(self)
                }
            } else {
                *old(self)
            }),
    {
        if self.composition_end_pending {
            return false;
        }
        self.pending_end_generation = self.composition_generation;
        true
    }

    /// The commit's session is over; `None` if it did not write the text. Says whether the text
    /// is in the document; a close that stayed owed counts its first attempt.
    pub fn do_commit(&mut self, report: Option<CommitEnd>) -> (r: bool)
        ensures
            r == (report is Some),
            *final(self) == (match report {
                None => *old(self),
                Some(CommitEnd::Closed) => CompositionState { composition: None, ..*old(self) },
                Some(CommitEnd::Owed { context, status }) => CompositionState {
                    composition_end_pending: true,
                    composition_end_context: Some(context),
                    composition_end_status: status,
                    composition_end_retry_count: 1,
                    ..*old(self)
                },
            }),
    {
        match report {
            None => false,
            Some(CommitEnd::Closed) => {
                self.composition = None;
                true
            },
            Some(CommitEnd::Owed { context, status }) => {
                self.composition_end_pending = true;
                self.composition_end_context = Some(context);
                self.composition_end_status = status;
                self.composition_end_retry_count = 1;
                true
            },
        }
    }

    /// Schedules another attempt to draw the rest of a partial commit. `true` asks for the
    /// timer.
    pub fn arm_partial_preedit_redraw_retry(&mut self) -> (r: bool)
        ensures
            r == (old(self).partial_preedit_redraw_pending && next_redraw(
                old(self).partial_preedit_redraw_retries,
            ) is Some),
            *final(self) == (CompositionState {
                partial_preedit_redraw_retries: if !old(self).partial_preedit_redraw_pending {
                    0
                } else {
                    match next_redraw(old(self).partial_preedit_redraw_retries) {
                        Some(next) => next,
                        None => old(self).partial_preedit_redraw_retries,
                    }
                },
                ..*old(self)
            }),
    {
        if !self.partial_preedit_redraw_pending {
            self.partial_preedit_redraw_retries = 0;
            return false;
        }
        match next_partial_redraw_retry(self.partial_preedit_redraw_retries) {
            None => false,
            Some(next) => {
                self.partial_preedit_redraw_retries = next;
                true
            },
        }
    }

    /// Whether the rest of a partial commit is to be drawn now. A composition that is over has
    /// no rest.
    pub fn wants_partial_redraw(&mut self, composing: bool) -> (r: bool)
        ensures
            r == (old(self).partial_preedit_redraw_pending && composing),
            *final(self) == (if old(self).partial_preedit_redraw_pending && !composing {
                CompositionState {
                    partial_preedit_redraw_pending: false,
                    partial_preedit_redraw_retries: 0,
                    ..*old(self)
                }
            } else {
                *old(self)
            }),
    {
        if !self.partial_preedit_redraw_pending {
            return false;
        }
        if !composing {
            self.partial_preedit_redraw_pending = false;
            self.partial_preedit_redraw_retries = 0;
            return false;
        }
        true
    }

    /// The rest of a partial commit was drawn, or not.
    pub fn redraw_partial_preedit(&mut self, applied: bool) -> (r: bool)
        ensures
            r == (applied && old(self).composition is Some && !old(self).composition_end_pending),
            *final(self) == (if r {
                CompositionState {
                    partial_preedit_redraw_pending: false,
                    partial_preedit_redraw_retries: 0,
                    ..*old(self)
                }
            } else {
                *old(self)
            }),
    {
        let redrawn = applied && self.composition.is_some() && !self.composition_end_pending;
        if redrawn {
            self.partial_preedit_redraw_pending = false;
            self.partial_preedit_redraw_retries = 0;
        }
        redrawn
    }
}

/// However the host answers, two attempts after the first are enough: the input is released.
pub proof fn an_owed_close_is_settled_within_its_attempts(
    s: CompositionState,
    a: CompositionEndStatus,
    b: CompositionEndStatus,
)
    requires
        s.composition_end_retry_count >= 1,
    ensures
        !s.after_attempt(a).after_attempt(b).composition_end_pending,
{
}

/// Settling is final: a late result changes nothing.
pub proof fn a_settled_close_ignores_late_results(s: CompositionState, status: CompositionEndStatus)
    requires
        !s.composition_end_pending,
    ensures
        s.after_attempt(status) == s,
{
}

/// A settled close leaves a promised key as it is: the host was told that it would be eaten.
pub proof fn settling_keeps_the_promised_key(s: CompositionState, status: CompositionEndStatus)
    ensures
        s.settled(status).pending_end_test_reservation == s.pending_end_test_reservation,
        s.settled(status).key_pair_generation == s.key_pair_generation,
{
}

/// A promise from before a border between lifecycles is never kept after it: the key that
/// arrives is not taken for the promised one, even if its signature is the same.
pub proof fn a_promise_does_not_cross_lifecycles(s: CompositionState, signature: PendingEndKeySignature)
    ensures
        s.without_reservation().pending_end_test_reservation.reservation != Some(
            ReservationEntry {
                signature,
                generation: s.without_reservation().key_pair_generation,
            },
        ),
        s.without_reservation().key_pair_generation != s.key_pair_generation,
{
}

/// After a close was given up, a callback of its composition finds another generation.
pub proof fn a_late_callback_is_not_current(s: CompositionState, status: CompositionEndStatus)
    requires
        s.composition_end_pending,
        s.pending_end_generation == s.composition_generation,
    ensures
        s.settled(status).pending_end_generation != s.settled(status).composition_generation,
{
}

/// A host that is busy is asked again: three times in all, the commit's own attempt included. The
/// rest of a partial commit is drawn five times at most.
pub proof fn attempts_are_counted_to_the_end(n: u8, generation: u64)
    ensures
        next_end(0) == Some(1u8) && next_end(1) == Some(2u8),
        n >= 2 ==> next_end(n) is None,
        n < 5 ==> next_redraw(n) is Some && next_redraw(n)->0 == n + 1,
        n >= 5 ==> next_redraw(n) is None,
        generation < u64::MAX ==> next_generation(generation) == generation + 1,
        next_generation(generation) != generation,
{
}

/// A close that is owed stays owed exactly while the host is busy and another attempt is left; then
/// the composition, its owner and the count stay. Otherwise nothing of it is left, and how it ended
/// is known.
pub proof fn an_owed_close_stays_owed_while_the_host_is_busy(
    s: CompositionState,
    status: CompositionEndStatus,
)
    requires
        s.composition_end_pending,
    ensures
        ({
            let after = s.after_attempt(status);
            let busy = status is Idle || status is Retryable;
            &&& after.composition_end_pending <==> busy && s.composition_end_retry_count < 2
            &&& after.composition_end_pending ==> {
                &&& after.composition == s.composition
                &&& after.composition_end_context == s.composition_end_context
                &&& after.composition_end_retry_count == s.composition_end_retry_count + 1
                &&& after.composition_end_status is Retryable
                &&& after.composition_generation == s.composition_generation
            }
            &&& !after.composition_end_pending ==> {
                &&& after.composition is None && after.composition_end_context is None
                &&& after.composition_end_retry_count == 0
                &&& after.composition_generation != s.composition_generation
                &&& status is Closed <==> after.composition_end_status is Closed
                &&& !(status is Closed) ==> after.composition_end_status is Terminal
            }
            &&& after.partial_preedit_redraw_pending == s.partial_preedit_redraw_pending
            &&& after.composition_started_signal == s.composition_started_signal
            &&& after.pending_end_test_reservation == s.pending_end_test_reservation
        }),
{
}

/// Settling an owed close takes the composition and its owner away and starts a new generation;
/// without one it changes nothing. A close by the host does the same in the same generation.
pub proof fn a_settled_close_leaves_nothing(s: CompositionState, status: CompositionEndStatus)
    ensures
        !s.composition_end_pending ==> s.settled(status) == s,
        s.composition_end_pending ==> {
            let after = s.settled(status);
            &&& !after.composition_end_pending && after.composition is None
            &&& after.composition_end_context is None && after.composition_end_status == status
            &&& after.composition_generation != s.composition_generation
            &&& after.partial_preedit_redraw_pending == s.partial_preedit_redraw_pending
        },
        ({
            let after = s.closed_by_host();
            &&& !after.composition_end_pending && after.composition is None
            &&& after.composition_end_context is None && after.composition_end_status is Closed
            &&& after.composition_end_retry_count == 0
            &&& after.composition_generation == s.composition_generation
            &&& after.pending_end_test_reservation == s.pending_end_test_reservation
            &&& after.key_pair_generation == s.key_pair_generation
            &&& after.partial_preedit_redraw_pending == s.partial_preedit_redraw_pending
        }),
        ({
            let after = s.released();
            &&& !after.composition_end_pending && after.composition is None
            &&& after.composition_end_context is None && after.composition_end_status is Closed
            &&& after.composition_end_retry_count == 0
            &&& after.composition_generation != s.composition_generation
            &&& after.pending_end_test_reservation == s.pending_end_test_reservation
        }),
{
}

/// A composition that was really started begins its lifecycle once: a new generation of compositions
/// and of keys, and no promise from before. Without the signal nothing changes.
pub proof fn a_started_composition_is_noticed_once(s: CompositionState)
    ensures
        !s.composition_started_signal ==> s.noticed() == s,
        s.composition_started_signal ==> {
            let after = s.noticed();
            &&& !after.composition_started_signal
            &&& after.composition_generation != s.composition_generation
            &&& after.key_pair_generation != s.key_pair_generation
            &&& after.pending_end_test_reservation.reservation is None
            &&& after.composition == s.composition
            &&& after.composition_end_pending == s.composition_end_pending
            &&& after.composition_end_context == s.composition_end_context
            &&& after.partial_preedit_redraw_pending == s.partial_preedit_redraw_pending
        },
        s.noticed().noticed() == s.noticed(),
{
}

/// An abandoned composition is the host's: nothing of it is kept, no rest of it is drawn, and no key
/// is promised for it.
pub proof fn an_abandoned_composition_is_the_hosts(s: CompositionState)
    ensures
        ({
            let after = s.abandoned();
            &&& after.composition is None && after.composition_end_context is None
            &&& !after.composition_end_pending
            &&& !after.partial_preedit_redraw_pending && after.partial_preedit_redraw_retries == 0
            &&& after.pending_end_test_reservation.reservation is None
            &&& after.key_pair_generation != s.key_pair_generation
            &&& s.composition_end_pending ==> after.composition_generation
                != s.composition_generation
            &&& !s.composition_end_pending ==> after.composition_generation
                == s.composition_generation
        }),
        ({
            let after = s.without_redraw();
            &&& !after.partial_preedit_redraw_pending && after.partial_preedit_redraw_retries == 0
            &&& after.composition == s.composition
            &&& after.composition_end_pending == s.composition_end_pending
            &&& after.pending_end_test_reservation == s.pending_end_test_reservation
        }),
        s.without_reservation().composition == s.composition,
        s.without_reservation().composition_end_pending == s.composition_end_pending,
        s.without_reservation().composition_generation == s.composition_generation,
{
}

/// Nothing is composed at first.
pub proof fn nothing_is_composed_at_first()
    ensures
        ({
            let first = CompositionState::initial();
            &&& first.composition is None && !first.composition_end_pending
            &&& first.composition_end_context is None
            &&& first.composition_end_status == CompositionEndStatus::Idle
            &&& first.composition_end_retry_count == 0 && first.composition_generation == 0
            &&& first.pending_end_generation == 0 && first.key_pair_generation == 0
            &&& !first.composition_started_signal
            &&& first.pending_end_test_reservation.reservation is None
            &&& !first.partial_preedit_redraw_pending && first.partial_preedit_redraw_retries == 0
        }),
{
}

/// The end of a composition touches what belongs to it: the keys that are held for it and the rest
/// that waits to be drawn are ended on their own.
pub proof fn an_end_keeps_what_is_not_its_own(c: CompositionState, status: CompositionEndStatus)
    ensures
        ({
            let after = c.without_reservation();
            after == (CompositionState {
                pending_end_test_reservation: after.pending_end_test_reservation,
                key_pair_generation: after.key_pair_generation,
                ..c
            })
        }),
        ({
            let after = c.noticed();
            after == (CompositionState {
                composition_started_signal: false,
                composition_generation: after.composition_generation,
                pending_end_test_reservation: after.pending_end_test_reservation,
                key_pair_generation: after.key_pair_generation,
                ..c
            })
        }),
        ({
            let after = c.released();
            after == (CompositionState {
                composition: None,
                composition_end_pending: false,
                composition_end_context: None,
                composition_end_status: CompositionEndStatus::Closed,
                composition_end_retry_count: 0,
                composition_generation: after.composition_generation,
                ..c
            }) && after.composition_generation != c.composition_generation
        }),
        c.without_redraw() == (CompositionState {
            partial_preedit_redraw_pending: false,
            partial_preedit_redraw_retries: 0,
            ..c
        }),
        c.closed_by_host() == (CompositionState {
            composition: None,
            composition_end_pending: false,
            composition_end_context: None,
            composition_end_status: CompositionEndStatus::Closed,
            composition_end_retry_count: 0,
            ..c
        }),
        ({
            let after = c.settled(status);
            &&& after == (CompositionState {
                composition: after.composition,
                composition_end_pending: false,
                composition_end_context: after.composition_end_context,
                composition_end_status: after.composition_end_status,
                composition_end_retry_count: after.composition_end_retry_count,
                composition_generation: after.composition_generation,
                ..c
            })
            &&& !c.composition_end_pending ==> after == c
        }),
        ({
            let after = c.after_attempt(status);
            &&& after == (CompositionState {
                composition: after.composition,
                composition_end_pending: after.composition_end_pending,
                composition_end_context: after.composition_end_context,
                composition_end_status: after.composition_end_status,
                composition_end_retry_count: after.composition_end_retry_count,
                composition_generation: after.composition_generation,
                ..c
            })
            &&& !c.composition_end_pending ==> after == c
            &&& after.composition_end_pending ==> after == (CompositionState {
                composition_end_status: CompositionEndStatus::Retryable,
                composition_end_retry_count: after.composition_end_retry_count,
                ..c
            })
        }),
        ({
            let after = c.abandoned();
            after == (CompositionState {
                composition: None,
                composition_end_pending: false,
                composition_end_context: None,
                composition_end_status: after.composition_end_status,
                composition_end_retry_count: after.composition_end_retry_count,
                composition_generation: after.composition_generation,
                key_pair_generation: after.key_pair_generation,
                pending_end_test_reservation: after.pending_end_test_reservation,
                partial_preedit_redraw_pending: false,
                partial_preedit_redraw_retries: 0,
                ..c
            })
        }),
{
}

/// An end is tried three times, and a rest is drawn again five times.
pub proof fn the_tries_are_counted()
    ensures
        COMPOSITION_END_RETRY_MAX == 3,
        PARTIAL_REDRAW_RETRY_MAX == 5,
{
}

/// Generations are counted one by one, and begin anew behind the last number.
pub proof fn generations_are_counted(g: u64)
    ensures
        g < u64::MAX ==> next_generation(g) == g + 1,
        next_generation(u64::MAX) == 0,
{
}

/// A composition whose close was owed is given up for good; one that was not owed keeps its last
/// status.
pub proof fn an_owed_close_is_given_up_for_good(c: CompositionState)
    ensures
        c.composition_end_pending ==> c.abandoned().composition_end_status
            == CompositionEndStatus::Terminal && c.abandoned().composition_generation
            != c.composition_generation && c.abandoned().composition_end_retry_count == 0,
        !c.composition_end_pending ==> c.abandoned().composition_end_status
            == c.composition_end_status && c.abandoned().composition_generation
            == c.composition_generation && c.abandoned().composition_end_retry_count
            == c.composition_end_retry_count,
{
}

} // verus!
