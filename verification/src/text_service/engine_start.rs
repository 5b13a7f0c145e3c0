//! Finding an engine: an existing one first, a new one if there is none, and nothing at all while
//! recent attempts failed.

use vstd::prelude::*;
use crate::engine::{handshake, HandshakeAction};
use crate::text_service::engine_link::{Backoff, EngineLink};

verus! {

/// How long the first attempt waits for an engine, in milliseconds.
pub const FIRST_CONNECT_MS: u64 = 200;

/// How long the attempt under the lock waits.
pub const LOCKED_CONNECT_MS: u64 = 50;

/// How long the attempt after a start waits.
pub const SPAWNED_CONNECT_MS: u64 = 400;

/// What to do next to find an engine.
#[derive(Clone, Copy, Debug, PartialEq, Eq, Structural)]
pub enum EnsureAction {
    /// Connect within the given time.
    Connect { within_ms: u64 },
    /// Take the lock that only one process holds, then connect within the given time. The lock is
    /// held to the end.
    LockAndConnect { within_ms: u64 },
    /// Open a session on the connection that was made.
    StartSession,
    /// Start an engine.
    Spawn,
    /// Done; the waiting time changes.
    Finish { backoff: Backoff },
}

/// What happened.
#[derive(Clone, Copy, Debug, PartialEq, Eq, Structural)]
pub enum EnsureEvent {
    Connected,
    NotConnected,
    /// The session was opened or not; the link knows.
    SessionTried,
    Spawned,
    NotSpawned,
}

/// How far the search has come.
#[derive(Clone, Copy, Debug, PartialEq, Eq, Structural)]
pub enum EnsureStage {
    Probe,
    ProbeSession,
    First,
    FirstSession,
    Locked,
    LockedSession,
    Spawning,
    AfterSpawn,
    AfterSpawnSession,
    Finished,
}

/// A search for an engine.
#[derive(Clone, Copy, Debug, PartialEq, Eq, Structural)]
pub struct EnsureEngine {
    pub stage: EnsureStage,
    /// An engine answered, with or without a session.
    pub connected_once: bool,
}

impl EnsureEngine {
    /// The end of a full search.
    pub open spec fn verdict(client: bool, connected_once: bool) -> EnsureAction {
        EnsureAction::Finish {
            backoff: if client {
                Backoff::Reset
            } else if connected_once {
                Backoff::SessionFailure
            } else {
                Backoff::ConnectFailure
            },
        }
    }

    /// Begins a search. While full attempts are held back, one look that costs nothing is allowed,
    /// unless the engine was found to be half dead.
    pub fn begin(link: &EngineLink, full_allowed: bool, probe_allowed: bool) -> (r: (
        EnsureEngine,
        EnsureAction,
    ))
        ensures
            !r.0.connected_once,
            if link.client || (!full_allowed && !probe_allowed) {
                r.0.stage == EnsureStage::Finished && r.1 == (EnsureAction::Finish {
                    backoff: Backoff::Keep,
                })
            } else if !full_allowed {
                r.0.stage == EnsureStage::Probe && r.1 == EnsureAction::Connect { within_ms: 0 }
            } else {
                r.0.stage == EnsureStage::First && r.1 == EnsureAction::Connect {
                    within_ms: FIRST_CONNECT_MS,
                }
            },
    {
        if link.client || (!full_allowed && !probe_allowed) {
            return (
                EnsureEngine { stage: EnsureStage::Finished, connected_once: false },
                EnsureAction::Finish { backoff: Backoff::Keep },
            );
        }
        if !full_allowed {
            return (
                EnsureEngine { stage: EnsureStage::Probe, connected_once: false },
                EnsureAction::Connect { within_ms: 0 },
            );
        }
        (
            EnsureEngine { stage: EnsureStage::First, connected_once: false },
            EnsureAction::Connect { within_ms: FIRST_CONNECT_MS },
        )
    }

    /// The search after an event; `client` and `spawn_attempted` are those of the link.
    pub open spec fn stepped(self, client: bool, spawn_attempted: bool, event: EnsureEvent) -> (
        EnsureEngine,
        EnsureAction,
    ) {
        let once = self.connected_once;
        let finish = |action: EnsureAction, connected_once: bool|
            (EnsureEngine { stage: EnsureStage::Finished, connected_once }, action);
        let open = |stage: EnsureStage|
            (EnsureEngine { stage, connected_once: true }, EnsureAction::StartSession);
        let lock_or_give_up = if spawn_attempted {
            finish(Self::verdict(client, once), once)
        } else {
            (
                EnsureEngine { stage: EnsureStage::Locked, connected_once: once },
                EnsureAction::LockAndConnect { within_ms: LOCKED_CONNECT_MS },
            )
        };
        let spawn = (
            EnsureEngine { stage: EnsureStage::Spawning, connected_once: once },
            EnsureAction::Spawn,
        );
        match (self.stage, event) {
            (EnsureStage::Probe, EnsureEvent::Connected) => open(EnsureStage::ProbeSession),
            (EnsureStage::Probe, _) => finish(
                EnsureAction::Finish { backoff: Backoff::Keep },
                once,
            ),
            (EnsureStage::ProbeSession, _) => finish(Self::verdict(client, once), once),
            (EnsureStage::First, EnsureEvent::Connected) => open(EnsureStage::FirstSession),
            (EnsureStage::First, _) => lock_or_give_up,
            (EnsureStage::FirstSession, _) => if client {
                finish(Self::verdict(true, once), once)
            } else {
                lock_or_give_up
            },
            (EnsureStage::Locked, EnsureEvent::Connected) => open(EnsureStage::LockedSession),
            (EnsureStage::Locked, _) => spawn,
            (EnsureStage::LockedSession, _) => if client {
                finish(Self::verdict(true, once), once)
            } else {
                spawn
            },
            (EnsureStage::Spawning, EnsureEvent::Spawned) => (
                EnsureEngine { stage: EnsureStage::AfterSpawn, connected_once: once },
                EnsureAction::Connect { within_ms: SPAWNED_CONNECT_MS },
            ),
            (EnsureStage::Spawning, _) => finish(Self::verdict(client, once), once),
            (EnsureStage::AfterSpawn, EnsureEvent::Connected) => open(
                EnsureStage::AfterSpawnSession,
            ),
            (EnsureStage::AfterSpawn, _) => finish(Self::verdict(client, once), once),
            (EnsureStage::AfterSpawnSession, _) => finish(Self::verdict(client, once), once),
            (EnsureStage::Finished, _) => finish(
                EnsureAction::Finish { backoff: Backoff::Keep },
                once,
            ),
        }
    }

    fn conclude(&mut self, link: &EngineLink) -> (r: EnsureAction)
        ensures
            r == Self::verdict(link.client, old(self).connected_once),
            *final(self) == (EnsureEngine { stage: EnsureStage::Finished, ..*old(self) }),
    {
        self.stage = EnsureStage::Finished;
        if link.client {
            EnsureAction::Finish { backoff: Backoff::Reset }
        } else if self.connected_once {
            EnsureAction::Finish { backoff: Backoff::SessionFailure }
        } else {
            EnsureAction::Finish { backoff: Backoff::ConnectFailure }
        }
    }

    fn keep(&mut self) -> (r: EnsureAction)
        ensures
            r == (EnsureAction::Finish { backoff: Backoff::Keep }),
            *final(self) == (EnsureEngine { stage: EnsureStage::Finished, ..*old(self) }),
    {
        self.stage = EnsureStage::Finished;
        EnsureAction::Finish { backoff: Backoff::Keep }
    }

    fn open_session(&mut self, stage: EnsureStage) -> (r: EnsureAction)
        ensures
            r == EnsureAction::StartSession,
            *final(self) == (EnsureEngine { stage, connected_once: true }),
    {
        self.stage = stage;
        self.connected_once = true;
        EnsureAction::StartSession
    }

    fn lock_or_give_up(&mut self, link: &mut EngineLink) -> (r: EnsureAction)
        ensures
            old(link).spawn_attempted ==> {
                &&& r == Self::verdict(old(link).client, old(self).connected_once)
                &&& *final(self) == (EnsureEngine { stage: EnsureStage::Finished, ..*old(self) })
                &&& *final(link) == *old(link)
            },
            !old(link).spawn_attempted ==> {
                &&& r == (EnsureAction::LockAndConnect { within_ms: LOCKED_CONNECT_MS })
                &&& *final(self) == (EnsureEngine { stage: EnsureStage::Locked, ..*old(self) })
                &&& *final(link) == (EngineLink { spawn_attempted: true, ..*old(link) })
            },
    {
        if link.spawn_attempted {
            return self.conclude(link);
        }
        link.spawn_attempted = true;
        self.stage = EnsureStage::Locked;
        EnsureAction::LockAndConnect { within_ms: LOCKED_CONNECT_MS }
    }

    /// Goes on after an event. The start of an engine is tried once for each activation.
    pub fn step(&mut self, link: &mut EngineLink, event: EnsureEvent) -> (r: EnsureAction)
        ensures
            (*final(self), r) == old(self).stepped(
                old(link).client,
                old(link).spawn_attempted,
                event,
            ),
            *final(link) == (EngineLink {
                spawn_attempted: old(link).spawn_attempted || r is LockAndConnect,
                child: old(link).child || (old(self).stage == EnsureStage::Spawning && event
                    == EnsureEvent::Spawned),
                ..*old(link)
            }),
    {
        match self.stage {
            EnsureStage::Probe => match event {
                EnsureEvent::Connected => self.open_session(EnsureStage::ProbeSession),
                _ => self.keep(),
            },
            EnsureStage::ProbeSession => self.conclude(link),
            EnsureStage::First => match event {
                EnsureEvent::Connected => self.open_session(EnsureStage::FirstSession),
                _ => self.lock_or_give_up(link),
            },
            EnsureStage::FirstSession => if link.client {
                self.conclude(link)
            } else {
                self.lock_or_give_up(link)
            },
            EnsureStage::Locked => match event {
                EnsureEvent::Connected => self.open_session(EnsureStage::LockedSession),
                _ => {
                    self.stage = EnsureStage::Spawning;
                    EnsureAction::Spawn
                },
            },
            EnsureStage::LockedSession => if link.client {
                self.conclude(link)
            } else {
                self.stage = EnsureStage::Spawning;
                EnsureAction::Spawn
            },
            EnsureStage::Spawning => match event {
                EnsureEvent::Spawned => {
                    link.child = true;
                    self.stage = EnsureStage::AfterSpawn;
                    EnsureAction::Connect { within_ms: SPAWNED_CONNECT_MS }
                },
                _ => self.conclude(link),
            },
            EnsureStage::AfterSpawn => match event {
                EnsureEvent::Connected => self.open_session(EnsureStage::AfterSpawnSession),
                _ => self.conclude(link),
            },
            EnsureStage::AfterSpawnSession => self.conclude(link),
            EnsureStage::Finished => self.keep(),
        }
    }
}

/// How many events a search can still take.
pub open spec fn events_left(stage: EnsureStage) -> int {
    match stage {
        EnsureStage::Finished => 0,
        EnsureStage::ProbeSession => 1,
        EnsureStage::Probe => 2,
        EnsureStage::AfterSpawnSession => 1,
        EnsureStage::AfterSpawn => 2,
        EnsureStage::Spawning => 3,
        EnsureStage::LockedSession => 4,
        EnsureStage::Locked => 5,
        EnsureStage::FirstSession => 6,
        EnsureStage::First => 7,
    }
}

/// How long the connections of a search can still take, in milliseconds.
pub open spec fn waiting_left(stage: EnsureStage) -> int {
    match stage {
        EnsureStage::First => FIRST_CONNECT_MS + LOCKED_CONNECT_MS + SPAWNED_CONNECT_MS,
        EnsureStage::FirstSession => LOCKED_CONNECT_MS + SPAWNED_CONNECT_MS,
        EnsureStage::Locked => LOCKED_CONNECT_MS + SPAWNED_CONNECT_MS,
        EnsureStage::LockedSession => SPAWNED_CONNECT_MS as int,
        EnsureStage::Spawning => SPAWNED_CONNECT_MS as int,
        EnsureStage::AfterSpawn => SPAWNED_CONNECT_MS as int,
        _ => 0,
    }
}

/// Every search ends, and its connections take a bounded time: a key never waits longer for them
/// than the three attempts together.
pub proof fn a_search_ends(
    search: EnsureEngine,
    client: bool,
    spawn_attempted: bool,
    event: EnsureEvent,
)
    requires
        search.stage != EnsureStage::Finished,
    ensures
        ({
            let next = search.stepped(client, spawn_attempted, event);
            &&& events_left(next.0.stage) < events_left(search.stage)
            &&& waiting_left(next.0.stage) <= waiting_left(search.stage)
            &&& next.0.stage == EnsureStage::Finished <==> next.1 is Finish
            &&& next.1 matches EnsureAction::Finish { backoff } ==> (backoff == Backoff::Reset
                ==> client)
        }),
{
}

/// An engine of another protocol is asked to end once; if one is still met after that, it is kept,
/// so that keys do not restart engines forever.
pub proof fn an_engine_is_replaced_once(proto: Option<u32>, own_proto: u32)
    ensures
        handshake(proto, own_proto, true) != HandshakeAction::ShutdownRespawn,
        handshake(proto, own_proto, false) == HandshakeAction::ShutdownRespawn ==> handshake(
            proto,
            own_proto,
            true,
        ) == HandshakeAction::DegradeKeep,
{
}

/// An engine that answers is always asked for a session. One that does not is looked for once more
/// under the lock, for 50 milliseconds, and then started, once for each activation; a started one
/// has 400 milliseconds to answer.
pub proof fn an_engine_is_looked_for_before_it_is_started(
    search: EnsureEngine,
    client: bool,
    attempted: bool,
    event: EnsureEvent,
)
    ensures
        ({
            let (next, action) = search.stepped(client, attempted, event);
            let looks = search.stage == EnsureStage::Probe || search.stage == EnsureStage::First
                || search.stage == EnsureStage::Locked || search.stage == EnsureStage::AfterSpawn;
            let opened = search.stage == EnsureStage::ProbeSession || search.stage
                == EnsureStage::FirstSession || search.stage == EnsureStage::LockedSession
                || search.stage == EnsureStage::AfterSpawnSession;
            &&& looks && event == EnsureEvent::Connected ==> action == EnsureAction::StartSession
                && next.connected_once
            &&& action == EnsureAction::StartSession ==> looks && event == EnsureEvent::Connected
            &&& opened && client ==> action == (EnsureAction::Finish { backoff: Backoff::Reset })
            &&& search.stage == EnsureStage::First && event != EnsureEvent::Connected && !attempted
                ==> action == (EnsureAction::LockAndConnect { within_ms: 50 })
            &&& search.stage == EnsureStage::FirstSession && !client && !attempted ==> action == (
            EnsureAction::LockAndConnect { within_ms: 50 })
            &&& attempted ==> !(action is LockAndConnect)
            &&& action is LockAndConnect ==> search.stage == EnsureStage::First || search.stage
                == EnsureStage::FirstSession
            &&& search.stage == EnsureStage::Locked && event != EnsureEvent::Connected ==> action
                == EnsureAction::Spawn
            &&& search.stage == EnsureStage::LockedSession && !client ==> action
                == EnsureAction::Spawn
            &&& action == EnsureAction::Spawn ==> search.stage == EnsureStage::Locked
                || search.stage == EnsureStage::LockedSession
            &&& search.stage == EnsureStage::Spawning && event == EnsureEvent::Spawned ==> action
                == (EnsureAction::Connect { within_ms: 400 })
            &&& action is Connect ==> search.stage == EnsureStage::Spawning
            &&& !(looks && event == EnsureEvent::Connected) ==> next.connected_once
                == search.connected_once
            &&& action matches EnsureAction::Finish { backoff } ==> {
                &&& backoff == Backoff::Reset ==> client
                &&& backoff == Backoff::SessionFailure ==> !client && search.connected_once
                &&& backoff == Backoff::ConnectFailure ==> !client && !search.connected_once
                &&& backoff == Backoff::Keep ==> search.stage == EnsureStage::Probe || search.stage
                    == EnsureStage::Finished
            }
            &&& search.stage == EnsureStage::AfterSpawnSession || search.stage
                == EnsureStage::ProbeSession ==> action is Finish
        }),
{
}

/// An engine that may be there has 200 milliseconds to answer.
pub proof fn an_engine_has_time_to_answer()
    ensures
        FIRST_CONNECT_MS == 200 && LOCKED_CONNECT_MS == 50 && SPAWNED_CONNECT_MS == 400,
        LOCKED_CONNECT_MS < FIRST_CONNECT_MS < SPAWNED_CONNECT_MS,
{
}

/// What is done next is what is waited for next: after a lock the answer under the lock, after a
/// start the start, after that the new engine, and behind an end there is nothing.
pub proof fn a_search_waits_for_what_it_did(
    search: EnsureEngine,
    client: bool,
    attempted: bool,
    event: EnsureEvent,
)
    ensures
        ({
            let (next, action) = search.stepped(client, attempted, event);
            &&& action is LockAndConnect <==> next.stage == EnsureStage::Locked
            &&& action == EnsureAction::Spawn <==> next.stage == EnsureStage::Spawning
            &&& action is Connect <==> next.stage == EnsureStage::AfterSpawn
            &&& action is Finish <==> next.stage == EnsureStage::Finished
            &&& action == EnsureAction::StartSession ==> next.stage == match search.stage {
                EnsureStage::Probe => EnsureStage::ProbeSession,
                EnsureStage::First => EnsureStage::FirstSession,
                EnsureStage::Locked => EnsureStage::LockedSession,
                _ => EnsureStage::AfterSpawnSession,
            }
            &&& search.stage == EnsureStage::Finished ==> action is Finish
            &&& search.stage == EnsureStage::Probe && event != EnsureEvent::Connected ==> action == (
            EnsureAction::Finish { backoff: Backoff::Keep })
            &&& search.stage == EnsureStage::AfterSpawn && event != EnsureEvent::Connected
                ==> action is Finish
            &&& search.stage == EnsureStage::Spawning && event != EnsureEvent::Spawned ==> action
                is Finish
        }),
{
}

} // verus!
