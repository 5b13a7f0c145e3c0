//! The connection to the engine: one request at a time, one answer to each. Answers carry no
//! number, so an answer that is still owed has to be read before the next request goes out.

use vstd::prelude::*;
use vstd::string::*;
use crate::engine::{
    commits_unseen, decide_handshake, drained_needs_drop, handshake, opened_session,
    plan_start_session, resume_poll_action, should_prespawn, DrainOutcome, HandshakeAction, IoFault,
    Reply, Response, PENDING_MAX,
};

verus! {

/// How often a busy engine is told its settings again on one connection.
pub const RELOAD_RETRY_MAX: u32 = 5;

/// The state of the connection. The connection itself stays with the caller; `client` tells
/// whether there is one.
pub struct EngineLink {
    pub client: bool,
    /// The session, 0 for none.
    pub session: i64,
    /// When the answer that is owed was given up, in milliseconds.
    pub pending_since: Option<u64>,
    /// The session whose end could not be told yet, 0 for none.
    pub pending_end_session: i64,
    pub spawn_attempted: bool,
    pub prespawn_failed: bool,
    pub handshake_shutdown_attempted: bool,
    pub reload_retry_count: u32,
    /// The timer of the next retry, 0 for none.
    pub reload_retry_timer: usize,
    /// A timer that the caller has to stop, 0 for none.
    pub stop_timer: usize,
    /// A handle of the engine's process is held.
    pub child: bool,
    pub resume_convert_pending: bool,
    pub last_resume_gen: u32,
    pub pipe_name: String,
}

/// What becomes of the waiting time between attempts to connect.
#[derive(Clone, Copy, Debug, PartialEq, Eq, Structural)]
pub enum Backoff {
    Keep,
    /// No waiting any more.
    Reset,
    /// The engine answers but opens no session.
    SessionFailure,
    /// The engine does not answer.
    ConnectFailure,
}

/// What a wake-up of the system does to the connection.
#[derive(Clone, Copy, Debug, PartialEq, Eq, Structural)]
pub enum PowerPoll {
    /// The system did not sleep.
    Nothing,
    /// Something is in the works: the connection stays.
    KeepConnection,
    /// The connection was given up.
    DropConnection,
}

/// What follows the opening of a session on a new connection.
#[derive(Clone, Copy, Debug, PartialEq, Eq, Structural)]
pub enum StartStep {
    /// The connection is kept; the settings are told next.
    Stored,
    /// The engine is asked to end, the connection is dropped, and another engine is started.
    Replace,
    /// The connection is dropped.
    Failed,
}

/// What follows the attempt to tell the settings.
#[derive(Clone, Copy, Debug, PartialEq, Eq, Structural)]
pub enum ReloadStep {
    Applied,
    /// The engine is busy: a timer of a second is set.
    Retry,
    /// The engine was busy too often.
    GiveUp,
    /// The engine does not take settings; the connection stays.
    Declined,
    /// The connection was given up.
    Dropped,
}

/// What has to happen before a request may go out.
#[derive(Clone, Copy, Debug, PartialEq, Eq, Structural)]
pub enum PrepareStart {
    /// Nothing: the outcome is known.
    Known(DrainOutcome),
    /// The owed answer has to be read.
    Drain,
}

/// What reading an owed answer gave: an answer, nothing where none was owed, or a fault.
pub type Drained = Result<Option<Response>, IoFault>;

/// The clauses of a conversion, as they are shown.
#[derive(Clone, Debug, PartialEq, Eq)]
pub struct ClauseViewData {
    pub segments: Vec<String>,
    pub selected: usize,
    pub candidates: Vec<String>,
    pub candidate_index: usize,
}

impl EngineLink {
    /// The link after the connection was given up. Nothing of it is carried over: the session, the
    /// owed answer, the unsaid end of a session and the retry all go with it.
    pub open spec fn dropped(self) -> EngineLink {
        EngineLink {
            client: false,
            session: 0,
            pending_since: None,
            pending_end_session: 0,
            spawn_attempted: false,
            child: false,
            ..self.without_retry()
        }
    }

    /// The link without its retry timer, which has to be stopped.
    pub open spec fn without_retry(self) -> EngineLink {
        EngineLink {
            reload_retry_timer: 0,
            stop_timer: if self.reload_retry_timer != 0 {
                self.reload_retry_timer
            } else {
                self.stop_timer
            },
            ..self
        }
    }

    /// An answer is owed from `now` on, or from before.
    pub open spec fn owing(self, now: u64) -> EngineLink {
        EngineLink {
            pending_since: match self.pending_since {
                Some(t) => Some(t),
                None => Some(now),
            },
            ..self
        }
    }

    /// `unread` answers may still arrive on the connection, and the link knows it.
    pub open spec fn in_step(self, unread: bool) -> bool {
        self.client ==> (unread ==> self.pending_since is Some)
    }

    /// No engine was looked for yet.
    pub open spec fn is_initial(self) -> bool {
        &&& self.pipe_name@ == Seq::<char>::empty()
        &&& self == (EngineLink {
            client: false,
            session: 0,
            pending_since: None,
            pending_end_session: 0,
            spawn_attempted: false,
            prespawn_failed: false,
            handshake_shutdown_attempted: false,
            reload_retry_count: 0,
            reload_retry_timer: 0,
            stop_timer: 0,
            child: false,
            resume_convert_pending: false,
            last_resume_gen: 0,
            pipe_name: self.pipe_name,
        })
    }

    pub fn new() -> (r: Self)
        ensures
            r.is_initial(),
    {
        EngineLink {
            client: false,
            session: 0,
            pending_since: None,
            pending_end_session: 0,
            spawn_attempted: false,
            prespawn_failed: false,
            handshake_shutdown_attempted: false,
            reload_retry_count: 0,
            reload_retry_timer: 0,
            stop_timer: 0,
            child: false,
            resume_convert_pending: false,
            last_resume_gen: 0,
            pipe_name: String::new(),
        }
    }

    /// The settings are not told again, and a new connection has all its tries.
    pub fn stop_reload_retry(&mut self)
        ensures
            *final(self) == (EngineLink { reload_retry_count: 0, ..old(self).without_retry() }),
    {
        self.stop_retry();
        self.reload_retry_count = 0;
    }

    fn stop_retry(&mut self)
        ensures
            *final(self) == old(self).without_retry(),
    {
        if self.reload_retry_timer != 0 {
            self.stop_timer = self.reload_retry_timer;
            self.reload_retry_timer = 0;
        }
    }

    /// Takes the timer that has to be stopped, 0 for none.
    pub fn take_stop_timer(&mut self) -> (r: usize)
        ensures
            r == old(self).stop_timer,
            *final(self) == (EngineLink { stop_timer: 0, ..*old(self) }),
    {
        let timer: usize = self.stop_timer;
        self.stop_timer = 0;
        timer
    }

    /// Gives the connection up.
    pub fn drop_engine(&mut self)
        ensures
            *final(self) == old(self).dropped(),
    {
        self.client = false;
        self.session = 0;
        self.stop_retry();
        self.pending_end_session = 0;
        self.pending_since = None;
        self.spawn_attempted = false;
        self.child = false;
    }

    /// The name of the engine's pipe: found once, then kept.
    pub fn engine_pipe_name(&mut self, stable: impl FnOnce() -> String) -> (r: String)
        requires
            old(self).pipe_name@.len() == 0 ==> stable.requires(()),
        ensures
            final(self).pipe_name == r,
            *final(self) == (EngineLink { pipe_name: r, ..*old(self) }),
            old(self).pipe_name@.len() > 0 ==> r == old(self).pipe_name,
            old(self).pipe_name@.len() == 0 ==> stable.ensures((), r),
    {
        if self.pipe_name.as_str().is_empty() {
            self.pipe_name = stable();
        }
        self.pipe_name.clone()
    }

    /// Looks whether the system woke up since the last look. The waiting time starts over then.
    pub fn poll_power_events(&mut self, gen: Option<u32>, busy: bool) -> (r: PowerPoll)
        ensures
            match gen {
                Some(gen) if gen != old(self).last_resume_gen => {
                    let woken = EngineLink {
                        last_resume_gen: gen,
                        resume_convert_pending: true,
                        ..*old(self)
                    };
                    if busy {
                        r == PowerPoll::KeepConnection && *final(self) == woken
                    } else {
                        &&& r == PowerPoll::DropConnection
                        &&& *final(self) == woken.dropped()
                    }
                },
                _ => r == PowerPoll::Nothing && *final(self) == *old(self),
            },
    {
        let gen = match gen {
            Some(gen) => gen,
            None => return PowerPoll::Nothing,
        };
        match resume_poll_action(gen, self.last_resume_gen, busy) {
            None => PowerPoll::Nothing,
            Some(drop_it) => {
                self.last_resume_gen = gen;
                self.resume_convert_pending = true;
                if drop_it {
                    self.drop_engine();
                    PowerPoll::DropConnection
                } else {
                    PowerPoll::KeepConnection
                }
            },
        }
    }

    /// The link after a new connection was kept.
    pub open spec fn stored(self, session: i64) -> EngineLink {
        EngineLink { client: true, session, reload_retry_count: 0, ..self }
    }

    /// The answer to the opening of a session on a new connection. The protocol is looked at here
    /// only: it does not change while the connection stands.
    pub fn start_and_store(&mut self, reply: Reply, own_proto: u32) -> (r: StartStep)
        ensures
            match reply {
                Ok(Response::Session { session, proto, .. }) => match handshake(
                    proto,
                    own_proto,
                    old(self).handshake_shutdown_attempted,
                ) {
                    HandshakeAction::Accept => r == StartStep::Stored && *final(self) == (
                    EngineLink {
                        handshake_shutdown_attempted: false,
                        ..old(self).stored(session)
                    }),
                    HandshakeAction::DegradeKeep => r == StartStep::Stored && *final(self)
                        == old(self).stored(session),
                    HandshakeAction::ShutdownRespawn => r == StartStep::Replace && *final(self) == (EngineLink {
                        handshake_shutdown_attempted: true,
                        ..old(self).dropped()
                    }),
                },
                _ => r == StartStep::Failed && *final(self) == (EngineLink {
                    client: false,
                    ..*old(self)
                }),
            },
    {
        match reply {
            Ok(Response::Session { session, proto, .. }) => match decide_handshake(
                proto,
                own_proto,
                self.handshake_shutdown_attempted,
            ) {
                HandshakeAction::Accept => {
                    self.handshake_shutdown_attempted = false;
                    self.session = session;
                    self.client = true;
                    self.reload_retry_count = 0;
                    StartStep::Stored
                },
                HandshakeAction::DegradeKeep => {
                    self.session = session;
                    self.client = true;
                    self.reload_retry_count = 0;
                    StartStep::Stored
                },
                HandshakeAction::ShutdownRespawn => {
                    self.drop_engine();
                    self.handshake_shutdown_attempted = true;
                    StartStep::Replace
                },
            },
            _ => {
                self.client = false;
                StartStep::Failed
            },
        }
    }

    /// The engine says that it is busy.
    pub open spec fn says_busy(message: Seq<char>) -> bool {
        message.len() >= 11 && message.subrange(0, 11) == "reload busy"@
    }

    fn is_busy(message: &str) -> (r: bool)
        ensures
            r == Self::says_busy(message@),
    {
        proof {
            reveal_strlit("reload busy");
        }
        if message.unicode_len() < 11 {
            return false;
        }
        crate::text::same_text(message.substring_char(0, 11), "reload busy")
    }

    /// The answer to the settings. An engine that does not know them keeps its connection; any
    /// answer that fits no request, and any answer that does not come, ends it.
    pub fn engine_reload_config(&mut self, reply: Reply) -> (r: ReloadStep)
        ensures
            match reply {
                Ok(Response::Done) => r == ReloadStep::Applied && *final(self) == (EngineLink {
                    reload_retry_count: 0,
                    ..*old(self)
                }),
                Ok(Response::Error { message }) => if Self::says_busy(message@) {
                    old(self).retries(*final(self), r)
                } else {
                    r == ReloadStep::Declined && *final(self) == *old(self)
                },
                _ => r == ReloadStep::Dropped && *final(self) == old(self).dropped(),
            },
    {
        match reply {
            Ok(Response::Done) => {
                self.reload_retry_count = 0;
                ReloadStep::Applied
            },
            Ok(Response::Error { message }) => if Self::is_busy(message.as_str()) {
                self.schedule_reload_retry()
            } else {
                ReloadStep::Declined
            },
            _ => {
                self.drop_engine();
                ReloadStep::Dropped
            },
        }
    }

    /// The count after one more busy answer.
    pub open spec fn next_retry(self) -> u32 {
        if self.reload_retry_count == u32::MAX {
            u32::MAX
        } else {
            (self.reload_retry_count + 1) as u32
        }
    }

    /// `self` became `after` when a busy answer was counted.
    pub open spec fn retries(self, after: EngineLink, step: ReloadStep) -> bool {
        if self.next_retry() > RELOAD_RETRY_MAX {
            &&& step == ReloadStep::GiveUp
            &&& after == EngineLink { reload_retry_count: self.next_retry(), ..self }
        } else {
            &&& step == ReloadStep::Retry
            &&& after == EngineLink {
                reload_retry_count: self.next_retry(),
                ..self.without_retry()
            }
        }
    }

    /// Counts a busy answer; the settings are told again a bounded number of times.
    pub fn schedule_reload_retry(&mut self) -> (r: ReloadStep)
        ensures
            old(self).retries(*final(self), r),
    {
        self.reload_retry_count = self.reload_retry_count.saturating_add(1);
        if self.reload_retry_count > RELOAD_RETRY_MAX {
            return ReloadStep::GiveUp;
        }
        self.stop_retry();
        ReloadStep::Retry
    }

    /// The timer of the retry was set; 0 means that it could not be set.
    pub fn reload_retry_timer_set(&mut self, id: usize)
        ensures
            *final(self) == (EngineLink { reload_retry_timer: id, ..*old(self) }),
    {
        self.reload_retry_timer = id;
    }

    /// A timer fired. `true` tells the settings again; a timer that was replaced does nothing.
    pub fn fire_reload_retry(&mut self, id: usize) -> (r: bool)
        ensures
            r == (old(self).reload_retry_timer == id),
            *final(self) == (if r {
                EngineLink { reload_retry_timer: 0, ..*old(self) }
            } else {
                *old(self)
            }),
    {
        if self.reload_retry_timer != id {
            return false;
        }
        self.reload_retry_timer = 0;
        true
    }

    /// Whether the engine is started ahead of the first key.
    pub fn prespawn_engine(&self, direct_mode: bool, backoff_allows: bool) -> (r: bool)
        ensures
            r == (!direct_mode && !self.prespawn_failed && !self.client && !self.spawn_attempted
                && backoff_allows),
    {
        if direct_mode || self.prespawn_failed {
            return false;
        }
        should_prespawn(self.client, self.spawn_attempted, backoff_allows)
    }

    /// The early start was tried; a failed one is not tried again.
    pub fn prespawned(&mut self, ok: bool)
        ensures
            *final(self) == (EngineLink {
                prespawn_failed: old(self).prespawn_failed || !ok,
                ..*old(self)
            }),
    {
        if !ok {
            self.prespawn_failed = true;
        }
    }

    /// Whether a session has to be opened before the next composition.
    pub fn wants_session(&self) -> (r: bool)
        ensures
            r == (self.session == 0 && self.client),
    {
        self.session == 0 && self.client
    }

    /// The answer to the opening of a session, if one was wanted. `true` tells that the session is
    /// new and empty, so that everything typed has to be sent again.
    pub fn ensure_session(&mut self, reply: Option<Reply>) -> (r: bool)
        ensures
            match reply {
                None => !r && *final(self) == *old(self),
                Some(reply) => match opened_session(reply) {
                    Some(session) => r && *final(self) == (EngineLink { session, ..*old(self) }),
                    None => !r && *final(self) == old(self).dropped(),
                },
            },
    {
        match reply {
            Some(reply) => match plan_start_session(reply) {
                Some(session) => {
                    self.session = session;
                    true
                },
                None => {
                    self.drop_engine();
                    false
                },
            },
            None => false,
        }
    }

    /// Whether a request may go out, or what has to be read first. An answer that is owed for too
    /// long will not come.
    pub fn prepare_send(&mut self, now: u64) -> (r: PrepareStart)
        ensures
            match old(self).pending_since {
                None => r == PrepareStart::Known(DrainOutcome::Proceed) && *final(self)
                    == *old(self),
                Some(since) => if now >= since + PENDING_MAX {
                    r == PrepareStart::Known(DrainOutcome::Dropped) && *final(self) == old(
                        self,
                    ).dropped()
                } else if !old(self).client {
                    r == PrepareStart::Known(DrainOutcome::Proceed) && *final(self) == (EngineLink {
                        pending_since: None,
                        ..*old(self)
                    })
                } else {
                    r == PrepareStart::Drain && *final(self) == *old(self)
                },
            },
    {
        let since = match self.pending_since {
            Some(since) => since,
            None => return PrepareStart::Known(DrainOutcome::Proceed),
        };
        if now >= since && now - since >= PENDING_MAX {
            self.drop_engine();
            return PrepareStart::Known(DrainOutcome::Dropped);
        }
        if !self.client {
            self.pending_since = None;
            return PrepareStart::Known(DrainOutcome::Proceed);
        }
        PrepareStart::Drain
    }

    /// The link after the owed answer was read or not, and whether a request may go out.
    pub open spec fn drains(self, drained: Drained) -> (EngineLink, DrainOutcome) {
        let read = EngineLink { pending_since: None, ..self };
        match drained {
            Err(IoFault::TimedOut) => (self, DrainOutcome::StillPending),
            Err(_) => (self.dropped(), DrainOutcome::Dropped),
            Ok(None) => (read, DrainOutcome::Proceed),
            Ok(Some(response)) => if commits_unseen(response) {
                (read.dropped(), DrainOutcome::Dropped)
            } else {
                (read, DrainOutcome::Proceed)
            },
        }
    }

    /// The owed answer was read or not. One that committed text behind the service's back ends the
    /// connection.
    pub fn finish_drain(&mut self, drained: Drained) -> (r: DrainOutcome)
        ensures
            (*final(self), r) == old(self).drains(drained),
            r == DrainOutcome::Proceed ==> final(self).pending_since is None,
    {
        match drained {
            Err(IoFault::TimedOut) => DrainOutcome::StillPending,
            Err(_) => {
                self.drop_engine();
                DrainOutcome::Dropped
            },
            Ok(None) => {
                self.pending_since = None;
                DrainOutcome::Proceed
            },
            Ok(Some(response)) => {
                self.pending_since = None;
                if drained_needs_drop(&response) {
                    self.drop_engine();
                    DrainOutcome::Dropped
                } else {
                    DrainOutcome::Proceed
                }
            },
        }
    }

    /// Whether a request that changes the engine's text may go out. With an answer still owed the
    /// connection is given up, so that everything typed is sent again later.
    pub fn prepare_send_or_drop(&mut self, outcome: DrainOutcome) -> (r: bool)
        ensures
            r == (outcome == DrainOutcome::Proceed),
            *final(self) == (if outcome == DrainOutcome::StillPending {
                old(self).dropped()
            } else {
                *old(self)
            }),
    {
        match outcome {
            DrainOutcome::Proceed => true,
            DrainOutcome::StillPending => {
                self.drop_engine();
                false
            },
            DrainOutcome::Dropped => false,
        }
    }
}

/// Nothing of a connection survives it: no session, no owed answer, no unsaid end of a session and
/// no retry. What belongs to the service stays: the name of the pipe, what was learned about
/// starting and replacing engines, and the last wake-up.
pub proof fn nothing_of_a_connection_survives_it(link: EngineLink)
    ensures
        ({
            let after = link.dropped();
            &&& !after.client && after.session == 0 && after.pending_since is None
            &&& after.pending_end_session == 0 && !after.spawn_attempted && !after.child
            &&& after.reload_retry_timer == 0
            &&& link.reload_retry_timer != 0 ==> after.stop_timer == link.reload_retry_timer
            &&& link.reload_retry_timer == 0 ==> after.stop_timer == link.stop_timer
            &&& after.pipe_name == link.pipe_name
            &&& after.prespawn_failed == link.prespawn_failed
            &&& after.handshake_shutdown_attempted == link.handshake_shutdown_attempted
            &&& after.reload_retry_count == link.reload_retry_count
            &&& after.resume_convert_pending == link.resume_convert_pending
            &&& after.last_resume_gen == link.last_resume_gen
        }),
        ({
            let after = link.without_retry();
            &&& after.reload_retry_timer == 0
            &&& link.reload_retry_timer != 0 ==> after.stop_timer == link.reload_retry_timer
            &&& link.reload_retry_timer == 0 ==> after == link
            &&& after.client == link.client && after.session == link.session
            &&& after.pending_since == link.pending_since
            &&& after.reload_retry_count == link.reload_retry_count
        }),
{
}

/// A connection that is kept has its session, and all its tries to tell the settings.
pub proof fn a_kept_connection_has_its_session(link: EngineLink, session: i64)
    ensures
        link.stored(session).client,
        link.stored(session).session == session,
        link.stored(session).reload_retry_count == 0,
        link.stored(session).pending_since == link.pending_since,
        link.stored(session).pipe_name == link.pipe_name,
        link.stored(session).handshake_shutdown_attempted == link.handshake_shutdown_attempted,
{
}

/// A busy engine is told its settings again five times at most on one connection, which is kept
/// either way.
pub proof fn a_busy_engine_is_told_again_five_times(
    link: EngineLink,
    after: EngineLink,
    step: ReloadStep,
)
    requires
        link.retries(after, step),
    ensures
        link.reload_retry_count < 5 ==> step == ReloadStep::Retry,
        link.reload_retry_count >= 5 ==> step == ReloadStep::GiveUp,
        link.reload_retry_count < u32::MAX ==> after.reload_retry_count == link.reload_retry_count
            + 1,
        after.client == link.client && after.session == link.session,
        after.pending_since == link.pending_since,
        step == ReloadStep::Retry ==> after.reload_retry_timer == 0,
{
}

/// An engine is busy exactly if its message begins so.
pub proof fn busy_is_told_by_how_a_message_begins(rest: Seq<char>, message: Seq<char>)
    ensures
        EngineLink::says_busy("reload busy"@ + rest),
        EngineLink::says_busy(message) ==> exists|more: Seq<char>|
            message == #[trigger] ("reload busy"@ + more),
{
    reveal_strlit("reload busy");
    let whole = "reload busy"@ + rest;
    assert(whole.subrange(0, 11) =~= "reload busy"@);
    if EngineLink::says_busy(message) {
        assert(message =~= "reload busy"@ + message.skip(11));
    }
}

/// An owed answer that is read is not owed any more, and a request may go out; one that still does
/// not come stays owed; and where the engine committed a text that nobody saw, or the connection
/// broke, the connection is given up.
pub proof fn an_owed_answer_is_read_first(
    link: EngineLink,
    response: Response,
    seq: u64,
    shown: String,
    reading: String,
    text: String,
    now: u64,
)
    ensures
        link.drains(Ok(None)).1 == DrainOutcome::Proceed,
        link.drains(Ok(None)).0.pending_since is None,
        link.drains(Ok(None)).0.client == link.client && link.drains(Ok(None)).0.session
            == link.session,
        !(response is LiveResult) ==> link.drains(Ok(Some(response))) == link.drains(Ok(None)),
        text@.len() > 0 ==> ({
            let unseen = Response::LiveResult { seq, text: shown, reading, committed: Some(text) };
            link.drains(Ok(Some(unseen))).1 == DrainOutcome::Dropped && !link.drains(
                Ok(Some(unseen)),
            ).0.client
        }),
        ({
            let harmless = Response::LiveResult { seq, text: shown, reading, committed: None };
            link.drains(Ok(Some(harmless))) == link.drains(Ok(None))
        }),
        link.drains(Err(IoFault::TimedOut)).1 == DrainOutcome::StillPending,
        link.drains(Err(IoFault::TimedOut)).0 == link,
        link.drains(Err(IoFault::BrokenPipe)).1 == DrainOutcome::Dropped,
        !link.drains(Err(IoFault::BrokenPipe)).0.client,
        link.pending_since is None ==> link.owing(now).pending_since == Some(now),
        link.pending_since is Some ==> link.owing(now) == link,
        link.owing(now).client == link.client && link.owing(now).session == link.session,
{
}

/// No engine is known at first.
pub proof fn no_engine_is_known_at_first(link: EngineLink)
    requires
        link.is_initial(),
    ensures
        !link.client && link.session == 0 && link.pending_since is None,
        link.pending_end_session == 0 && !link.spawn_attempted && !link.prespawn_failed,
        !link.handshake_shutdown_attempted && link.reload_retry_count == 0,
        link.reload_retry_timer == 0 && link.stop_timer == 0 && !link.child,
        !link.resume_convert_pending && link.last_resume_gen == 0 && link.pipe_name@.len() == 0,
{
}

/// An answer that may still arrive is known to the link, as long as there is a connection.
pub proof fn an_unread_answer_is_known(link: EngineLink)
    ensures
        link.in_step(false),
        !link.client ==> link.in_step(true),
        link.client ==> (link.in_step(true) <==> link.pending_since is Some),
{
}

/// What happens to a connection touches what belongs to it, and nothing else of the link.
pub proof fn a_connection_keeps_the_rest_of_the_link(
    link: EngineLink,
    now: u64,
    session: i64,
    after: EngineLink,
    step: ReloadStep,
    drained: Drained,
)
    ensures
        ({
            let gone = link.dropped();
            gone == (EngineLink {
                client: false,
                session: 0,
                pending_since: None,
                pending_end_session: 0,
                spawn_attempted: false,
                child: false,
                reload_retry_timer: 0,
                stop_timer: gone.stop_timer,
                ..link
            })
        }),
        ({
            let quiet = link.without_retry();
            quiet == (EngineLink { reload_retry_timer: 0, stop_timer: quiet.stop_timer, ..link })
        }),
        link.owing(now) == (EngineLink { pending_since: link.owing(now).pending_since, ..link }),
        link.owing(now).pending_since is Some,
        link.pending_since is Some ==> link.owing(now) == link,
        link.pending_since is None ==> link.owing(now).pending_since == Some(now),
        link.stored(session) == (EngineLink {
            client: true,
            session,
            reload_retry_count: 0,
            ..link
        }),
        link.retries(after, step) ==> after == (EngineLink {
            reload_retry_count: after.reload_retry_count,
            reload_retry_timer: after.reload_retry_timer,
            stop_timer: after.stop_timer,
            ..link
        }),
        ({
            let read = link.drains(drained).0;
            &&& read == link || read == link.dropped() || read == (EngineLink {
                pending_since: None,
                ..link
            }) || read == (EngineLink { pending_since: None, ..link }).dropped()
            &&& link.drains(drained).1 == DrainOutcome::Proceed ==> read == (EngineLink {
                pending_since: None,
                ..link
            })
            &&& link.drains(drained).1 == DrainOutcome::StillPending ==> read == link
            &&& link.drains(drained).1 == DrainOutcome::Dropped ==> !read.client
        }),
{
}

/// A busy engine is told five times at most.
pub proof fn a_busy_engine_is_left_alone_in_the_end()
    ensures
        RELOAD_RETRY_MAX == 5,
{
}

} // verus!
