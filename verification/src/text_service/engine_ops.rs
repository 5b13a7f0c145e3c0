//! The requests of a composition, and what their answers do to the connection.

use vstd::prelude::*;
use vstd::string::*;
use crate::engine::{
    end_session_ack_accepted, DrainOutcome, InsertStyle, IoFault, Reply, Request, Response,
};
use crate::text::opt_view;
use crate::text_service::conversion::{live_follows, LiveStep};
use crate::text_service::engine_link::{ClauseViewData, EngineLink};

verus! {

/// A text that was committed and the reading that is left.
#[derive(Clone, Debug, PartialEq, Eq)]
pub struct CommittedText {
    pub text: String,
    pub reading: String,
}

/// What a live conversion shows.
#[derive(Clone, Debug, PartialEq, Eq)]
pub struct LiveText {
    pub text: String,
    pub reading: String,
    /// The text that the engine committed by itself.
    pub committed: Option<String>,
}

/// How the end of a session begins.
#[derive(Clone, Copy, Debug, PartialEq, Eq, Structural)]
pub enum EndStart {
    /// There is no session.
    Nothing,
    /// The connection is lent out: the end is told once it is back.
    Parked,
    /// An owed answer has to be read first.
    Prepare,
}

/// The answer did not come in time.
pub open spec fn late(reply: Reply) -> bool {
    reply matches Err(IoFault::TimedOut)
}

/// The engine does not want to.
pub open spec fn declined(reply: Reply) -> bool {
    reply matches Ok(Response::Error { .. })
}

/// The reading in an answer.
pub open spec fn reading_of(reply: Reply) -> Option<String> {
    match reply {
        Ok(Response::Reading { reading }) => Some(reading),
        _ => None,
    }
}

/// The candidates in an answer.
pub open spec fn candidates_of(reply: Reply) -> Option<Vec<String>> {
    match reply {
        Ok(Response::Candidates { candidates }) => Some(candidates),
        _ => None,
    }
}

/// The committed text in an answer.
pub open spec fn committed_of(reply: Reply) -> Option<CommittedText> {
    match reply {
        Ok(Response::Committed { text, reading }) => Some(CommittedText { text, reading }),
        _ => None,
    }
}

/// The clauses in an answer.
pub open spec fn clauses_of(reply: Reply) -> Option<ClauseViewData> {
    match reply {
        Ok(Response::ClauseView { segments, selected, candidates, candidate_index }) => Some(
            ClauseViewData {
                segments,
                selected: selected as usize,
                candidates,
                candidate_index: candidate_index as usize,
            },
        ),
        _ => None,
    }
}

/// The live conversion in an answer.
pub open spec fn live_of(reply: Reply) -> Option<LiveText> {
    match reply {
        Ok(Response::LiveResult { text, reading, committed, .. }) => Some(
            LiveText { text, reading, committed },
        ),
        _ => None,
    }
}

impl EngineLink {
    /// The link after an answer that fits or does not; the connection is given up in the latter
    /// case.
    pub open spec fn unless_unfit(self, fits: bool) -> EngineLink {
        if fits {
            self
        } else {
            self.dropped()
        }
    }

    /// The link after an answer that may come late: the connection and its session stay, and the
    /// answer is owed.
    pub open spec fn unless_lost(self, fits: bool, reply: Reply, now: u64) -> EngineLink {
        if fits {
            self
        } else if late(reply) {
            self.owing(now)
        } else {
            self.dropped()
        }
    }

    /// The request to insert text.
    pub fn insert_request(&self, text: &str, style: InsertStyle) -> (r: Option<Request>)
        ensures
            r is Some == self.client,
            r matches Some(request) ==> {
                &&& request matches Request::Insert { session, text: t, style: s }
                &&& session == self.session
                &&& t@ == text@
                &&& opt_view(s) == (if style == InsertStyle::Direct {
                    Some("direct"@)
                } else {
                    None
                })
            },
    {
        if !self.client {
            return None;
        }
        let style = match style {
            InsertStyle::Direct => Some("direct".to_owned()),
            InsertStyle::Kana => None,
        };
        Some(Request::Insert { session: self.session, text: text.to_owned(), style })
    }

    /// The answer to an insertion: the reading, if it came. A late one is owed.
    pub fn engine_insert(&mut self, reply: Reply, now: u64) -> (r: Option<String>)
        ensures
            r == reading_of(reply),
            reply matches Ok(Response::Reading { reading }) ==> r == Some(reading),
            *final(self) == old(self).unless_lost(r is Some, reply, now),
    {
        match reply {
            Ok(Response::Reading { reading }) => Some(reading),
            Err(IoFault::TimedOut) => {
                self.owe(now);
                None
            },
            _ => {
                self.drop_engine();
                None
            },
        }
    }

    fn owe(&mut self, now: u64)
        ensures
            *final(self) == old(self).owing(now),
    {
        if self.pending_since.is_none() {
            self.pending_since = Some(now);
        }
    }

    fn candidates(&mut self, reply: Reply) -> (r: Option<Vec<String>>)
        ensures
            r == candidates_of(reply),
            *final(self) == old(self).unless_unfit(r is Some),
    {
        match reply {
            Ok(Response::Candidates { candidates }) => Some(candidates),
            _ => {
                self.drop_engine();
                None
            },
        }
    }

    /// The request to convert. The first one after a wake-up is no longer awaited.
    pub fn convert_request(&mut self, left_context: Option<String>) -> (r: Option<Request>)
        ensures
            r == (if old(self).client {
                Some(Request::Convert { session: old(self).session, left_context })
            } else {
                None
            }),
            *final(self) == old(self).touched(),
    {
        if !self.client {
            return None;
        }
        self.resume_convert_pending = false;
        Some(Request::Convert { session: self.session, left_context })
    }

    /// The link after a conversion went out.
    pub open spec fn touched(self) -> EngineLink {
        EngineLink { resume_convert_pending: self.resume_convert_pending && !self.client, ..self }
    }

    /// The answer to a conversion: the candidates, if they came.
    pub fn engine_convert(&mut self, reply: Reply) -> (r: Option<Vec<String>>)
        ensures
            r == candidates_of(reply),
            reply matches Ok(Response::Candidates { candidates }) ==> r == Some(candidates),
            *final(self) == old(self).unless_unfit(r is Some),
    {
        self.candidates(reply)
    }

    /// The request to convert and correct.
    pub fn typo_convert_request(&self, left_context: Option<String>) -> (r: Option<Request>)
        ensures
            r == (if self.client {
                Some(Request::TypoConvert { session: self.session, left_context })
            } else {
                None
            }),
    {
        if !self.client {
            return None;
        }
        Some(Request::TypoConvert { session: self.session, left_context })
    }

    /// The answer to a correction: the candidates, if they came.
    pub fn engine_typo_convert(&mut self, reply: Reply) -> (r: Option<Vec<String>>)
        ensures
            r == candidates_of(reply),
            *final(self) == old(self).unless_unfit(r is Some),
    {
        self.candidates(reply)
    }

    /// The request to convert text that stands in the document.
    pub fn reconvert_request(&mut self, surface: &str, left_context: Option<String>) -> (r: Option<
        Request,
    >)
        ensures
            r is Some == old(self).client,
            r matches Some(request) ==> {
                &&& request matches Request::Reconvert { session, surface: s, left_context: c }
                &&& session == old(self).session
                &&& s@ == surface@
                &&& c == left_context
            },
            *final(self) == old(self).touched(),
    {
        if !self.client {
            return None;
        }
        self.resume_convert_pending = false;
        Some(
            Request::Reconvert {
                session: self.session,
                surface: surface.to_owned(),
                left_context,
            },
        )
    }

    /// The answer to a conversion of document text: the candidates, if they came.
    pub fn engine_reconvert_surface(&mut self, reply: Reply) -> (r: Option<Vec<String>>)
        ensures
            r == candidates_of(reply),
            *final(self) == old(self).unless_unfit(r is Some),
    {
        self.candidates(reply)
    }

    fn committed(&mut self, reply: Reply) -> (r: Option<CommittedText>)
        ensures
            r == committed_of(reply),
            *final(self) == old(self).unless_unfit(r is Some || declined(reply)),
    {
        match reply {
            Ok(Response::Committed { text, reading }) => Some(CommittedText { text, reading }),
            Ok(Response::Error { .. }) => None,
            _ => {
                self.drop_engine();
                None
            },
        }
    }

    /// The request to commit a candidate.
    pub fn commit_request(&self, index: usize) -> (r: Option<Request>)
        ensures
            r == (if self.client {
                Some(Request::Commit { session: self.session, index: index as u32 })
            } else {
                None
            }),
    {
        if !self.client {
            return None;
        }
        Some(
            Request::Commit {
                session: self.session,
                index: #[verifier::truncate]
                (index as u32),
            },
        )
    }

    /// The answer to a commit. An engine that does not want to keeps its connection and session.
    pub fn engine_commit(&mut self, reply: Reply) -> (r: Option<CommittedText>)
        ensures
            r == committed_of(reply),
            reply matches Ok(Response::Committed { text, reading }) ==> r is Some && r->0.text == text
                && r->0.reading == reading,
            *final(self) == old(self).unless_unfit(r is Some || declined(reply)),
    {
        self.committed(reply)
    }

    /// The request to commit all clauses.
    pub fn commit_clauses_request(&self) -> (r: Option<Request>)
        ensures
            r == (if self.client {
                Some(Request::CommitClauses { session: self.session })
            } else {
                None
            }),
    {
        if !self.client {
            return None;
        }
        Some(Request::CommitClauses { session: self.session })
    }

    /// The answer to a commit of all clauses.
    pub fn engine_commit_clauses(&mut self, reply: Reply) -> (r: Option<CommittedText>)
        ensures
            r == committed_of(reply),
            *final(self) == old(self).unless_unfit(r is Some || declined(reply)),
    {
        self.committed(reply)
    }

    fn clauses(&mut self, reply: Reply) -> (r: Option<ClauseViewData>)
        ensures
            r == clauses_of(reply),
            *final(self) == old(self).unless_unfit(r is Some || declined(reply)),
    {
        match reply {
            Ok(Response::ClauseView { segments, selected, candidates, candidate_index }) => Some(
                ClauseViewData {
                    segments,
                    selected: selected as usize,
                    candidates,
                    candidate_index: candidate_index as usize,
                },
            ),
            Ok(Response::Error { .. }) => None,
            _ => {
                self.drop_engine();
                None
            },
        }
    }

    /// The request to move to another clause.
    pub fn move_clause_request(
        &self,
        offset: i32,
        base_index: usize,
        left_context: Option<String>,
    ) -> (r: Option<Request>)
        ensures
            r == (if self.client {
                Some(
                    Request::MoveClause {
                        session: self.session,
                        offset,
                        base_index: base_index as u32,
                        left_context,
                    },
                )
            } else {
                None
            }),
    {
        if !self.client {
            return None;
        }
        Some(
            Request::MoveClause {
                session: self.session,
                offset,
                base_index: #[verifier::truncate]
                (base_index as u32),
                left_context,
            },
        )
    }

    /// The answer to a move: the clauses, if the engine has some.
    pub fn engine_move_clause(&mut self, reply: Reply) -> (r: Option<ClauseViewData>)
        ensures
            r == clauses_of(reply),
            reply matches Ok(Response::ClauseView { segments, selected, candidates, candidate_index })
                ==> r is Some && r->0.segments == segments && r->0.selected == selected
                && r->0.candidates == candidates && r->0.candidate_index == candidate_index,
            *final(self) == old(self).unless_unfit(r is Some || declined(reply)),
    {
        self.clauses(reply)
    }

    /// The request to take another candidate for the selected clause.
    pub fn select_clause_request(&self, index: usize) -> (r: Option<Request>)
        ensures
            r == (if self.client {
                Some(Request::SelectClauseCandidate { session: self.session, index: index as u32 })
            } else {
                None
            }),
    {
        if !self.client {
            return None;
        }
        Some(
            Request::SelectClauseCandidate {
                session: self.session,
                index: #[verifier::truncate]
                (index as u32),
            },
        )
    }

    /// The answer to a choice for the selected clause.
    pub fn engine_select_clause_candidate(&mut self, reply: Reply) -> (r: Option<ClauseViewData>)
        ensures
            r == clauses_of(reply),
            *final(self) == old(self).unless_unfit(r is Some || declined(reply)),
    {
        self.clauses(reply)
    }

    /// The request for a live conversion, once nothing is owed.
    pub fn live_convert_request(
        &mut self,
        outcome: DrainOutcome,
        seq: u64,
        auto_commit: bool,
        left_context: Option<String>,
    ) -> (r: Option<Request>)
        ensures
            r == (if outcome == DrainOutcome::Proceed && old(self).client {
                Some(
                    Request::LiveConvert {
                        session: old(self).session,
                        seq,
                        left_context,
                        auto_commit,
                    },
                )
            } else {
                None
            }),
            *final(self) == (if outcome == DrainOutcome::Proceed {
                old(self).touched()
            } else {
                *old(self)
            }),
    {
        match outcome {
            DrainOutcome::Proceed => {},
            _ => return None,
        }
        if !self.client {
            return None;
        }
        self.resume_convert_pending = false;
        Some(Request::LiveConvert { session: self.session, seq, left_context, auto_commit })
    }

    /// The answer to a live conversion. A late one is owed: the session lives on.
    pub fn engine_live_convert(&mut self, reply: Reply, now: u64) -> (r: Option<LiveText>)
        ensures
            r == live_of(reply),
            reply matches Ok(Response::LiveResult { text, reading, committed, .. }) ==> {
                &&& r is Some
                &&& r->0.text == text
                &&& r->0.reading == reading
                &&& r->0.committed == committed
            },
            *final(self) == old(self).unless_lost(r is Some, reply, now),
    {
        match reply {
            Ok(Response::LiveResult { text, reading, committed, .. }) => Some(
                LiveText { text, reading, committed },
            ),
            Err(IoFault::TimedOut) => {
                self.owe(now);
                None
            },
            _ => {
                self.drop_engine();
                None
            },
        }
    }

    /// The request to take back the last character.
    pub fn backspace_request(&self) -> (r: Option<Request>)
        ensures
            r == (if self.client {
                Some(Request::Backspace { session: self.session })
            } else {
                None
            }),
    {
        if !self.client {
            return None;
        }
        Some(Request::Backspace { session: self.session })
    }

    /// The answer to a character taken back: the reading, if it came.
    pub fn engine_backspace(&mut self, reply: Reply) -> (r: Option<String>)
        ensures
            r == reading_of(reply),
            *final(self) == old(self).unless_unfit(r is Some),
    {
        match reply {
            Ok(Response::Reading { reading }) => Some(reading),
            _ => {
                self.drop_engine();
                None
            },
        }
    }

    /// Begins to end the session.
    pub fn begin_end_session(&mut self) -> (r: EndStart)
        ensures
            r == (if old(self).session == 0 {
                EndStart::Nothing
            } else if old(self).client {
                EndStart::Prepare
            } else {
                EndStart::Parked
            }),
            *final(self) == (if r == EndStart::Parked {
                EngineLink { session: 0, pending_end_session: old(self).session, ..*old(self) }
            } else {
                *old(self)
            }),
    {
        if self.session == 0 {
            return EndStart::Nothing;
        }
        if self.client {
            return EndStart::Prepare;
        }
        self.pending_end_session = self.session;
        self.session = 0;
        EndStart::Parked
    }

    /// The request to end the session. With an answer still owed the connection is given up: there
    /// is no later chance to end this session.
    pub fn end_session_request(&mut self, outcome: DrainOutcome) -> (r: Option<Request>)
        ensures
            r == (if outcome == DrainOutcome::Proceed {
                Some(Request::EndSession { session: old(self).session })
            } else {
                None
            }),
            *final(self) == old(self).unless_unfit(outcome != DrainOutcome::StillPending),
    {
        match outcome {
            DrainOutcome::Proceed => Some(Request::EndSession { session: self.session }),
            DrainOutcome::StillPending => {
                self.drop_engine();
                None
            },
            DrainOutcome::Dropped => None,
        }
    }

    /// The answer to the end of the session.
    pub fn engine_end_session(&mut self, reply: Reply)
        ensures
            *final(self) == (EngineLink { session: 0, ..*old(self) }).unless_unfit(
                reply matches Ok(Response::Done),
            ),
    {
        self.session = 0;
        if !end_session_ack_accepted(&reply) {
            self.drop_engine();
        }
    }

    /// The request for the end that could not be told before.
    pub fn flush_pending_end_session(&mut self) -> (r: Option<Request>)
        ensures
            r == (if old(self).pending_end_session != 0 && old(self).client {
                Some(Request::EndSession { session: old(self).pending_end_session })
            } else {
                None
            }),
            *final(self) == (EngineLink { pending_end_session: 0, ..*old(self) }),
    {
        let session: i64 = self.pending_end_session;
        self.pending_end_session = 0;
        if session == 0 || !self.client {
            return None;
        }
        Some(Request::EndSession { session })
    }

    /// The answer to the end that could not be told before.
    pub fn flushed_end_session(&mut self, reply: Reply)
        ensures
            *final(self) == old(self).unless_unfit(reply matches Ok(Response::Done)),
    {
        if !end_session_ack_accepted(&reply) {
            self.drop_engine();
        }
    }

    /// The request to learn a correction, once nothing is owed.
    pub fn record_correction_request(&self, outcome: DrainOutcome, reading: &str, surface: &str)
     -> (r: Option<Request>)
        ensures
            r is Some == (outcome == DrainOutcome::Proceed && self.client),
            r matches Some(request) ==> {
                &&& request matches Request::RecordCorrection { reading: a, surface: b }
                &&& a@ == reading@
                &&& b@ == surface@
            },
    {
        match outcome {
            DrainOutcome::Proceed => if self.client {
                Some(
                    Request::RecordCorrection {
                        reading: reading.to_owned(),
                        surface: surface.to_owned(),
                    },
                )
            } else {
                None
            },
            _ => None,
        }
    }

    /// The answer to a correction: any will do, but it has to come.
    pub fn engine_record_correction(&mut self, reply: Reply)
        ensures
            *final(self) == old(self).unless_unfit(reply is Ok),
    {
        if reply.is_err() {
            self.drop_engine();
        }
    }
}

/// Requests and answers stay in step. Whatever became of a request that went out while nothing
/// was owed, an answer that may still arrive is either known to be owed or has lost its
/// connection; so no later request can take it for its own.
pub proof fn an_unread_answer_is_owed_or_cut_off(
    link: EngineLink,
    reply: Reply,
    fits: bool,
    now: u64,
)
    requires
        link.pending_since is None,
        fits ==> reply is Ok,
    ensures
        link.unless_unfit(fits).in_step(reply is Err),
        link.unless_lost(fits, reply, now).in_step(reply is Err),
        (EngineLink { session: 0, ..link }).unless_unfit(fits).in_step(reply is Err),
{
}

/// An answer is owed only while there is a connection to read it from, and no request goes out
/// before it is read: reading it, giving it up and finding it lost all leave nothing owed.
pub proof fn nothing_is_owed_when_a_request_goes_out(
    link: EngineLink,
    drained: crate::text_service::engine_link::Drained,
)
    ensures
        link.dropped().pending_since is None,
        ({
            let after = link.drains(drained);
            after.1 == DrainOutcome::Proceed ==> after.0.pending_since is None
        }),
        ({
            let after = link.drains(drained);
            after.1 == DrainOutcome::Dropped ==> !after.0.client
        }),
        ({
            let after = link.drains(drained);
            after.1 == DrainOutcome::StillPending ==> after.0 == link
        }),
{
}

/// What the engine answers is handed on whole: every text, reading, candidate and position of an
/// answer that fits, and in particular the text that the engine committed by itself, which would
/// be lost otherwise.
pub proof fn an_answer_is_handed_on_whole(
    seq: u64,
    text: String,
    reading: String,
    committed: Option<String>,
    texts: Vec<String>,
    candidates: Vec<String>,
    selected: u32,
    index: u32,
)
    ensures
        ({
            let live = live_of(Ok(Response::LiveResult { seq, text, reading, committed }));
            &&& live is Some
            &&& live->0.text == text
            &&& live->0.reading == reading
            &&& live->0.committed == committed
        }),
        reading_of(Ok(Response::Reading { reading })) == Some(reading),
        candidates_of(Ok(Response::Candidates { candidates })) == Some(candidates),
        ({
            let whole = committed_of(Ok(Response::Committed { text, reading }));
            whole is Some && whole->0.text == text && whole->0.reading == reading
        }),
        ({
            let view = clauses_of(
                Ok(
                    Response::ClauseView {
                        segments: texts,
                        selected,
                        candidates,
                        candidate_index: index,
                    },
                ),
            );
            &&& view is Some
            &&& view->0.segments == texts
            &&& view->0.selected == selected
            &&& view->0.candidates == candidates
            &&& view->0.candidate_index == index
        }),
{
}

/// An answer gives something only if it is of the kind that was asked for.
pub proof fn an_answer_of_another_kind_gives_nothing(reply: Reply)
    ensures
        live_of(reply) is Some <==> reply is Ok && reply->Ok_0 is LiveResult,
        reading_of(reply) is Some <==> reply is Ok && reply->Ok_0 is Reading,
        candidates_of(reply) is Some <==> reply is Ok && reply->Ok_0 is Candidates,
        committed_of(reply) is Some <==> reply is Ok && reply->Ok_0 is Committed,
        clauses_of(reply) is Some <==> reply is Ok && reply->Ok_0 is ClauseView,
        late(reply) <==> reply is Err && reply->Err_0 is TimedOut,
        declined(reply) <==> reply is Ok && reply->Ok_0 is Error,
{
}

/// An answer that fits leaves the link as it is. One that comes late is owed from then on, and the
/// session lives on; after any other nothing of the connection is left.
pub proof fn an_answer_decides_over_the_connection(link: EngineLink, reply: Reply, now: u64)
    ensures
        link.unless_unfit(true) == link,
        link.unless_lost(true, reply, now) == link,
        !link.unless_unfit(false).client && link.unless_unfit(false).session == 0,
        reply == Err::<Response, IoFault>(IoFault::TimedOut) ==> {
            let after = link.unless_lost(false, reply, now);
            &&& after.client == link.client
            &&& after.session == link.session
            &&& after.pending_since is Some
            &&& link.pending_since is Some ==> after.pending_since == link.pending_since
            &&& link.pending_since is None ==> after.pending_since == Some(now)
        },
        reply != Err::<Response, IoFault>(IoFault::TimedOut) ==> {
            let after = link.unless_lost(false, reply, now);
            !after.client && after.session == 0 && after.pending_since is None
        },
        link.client ==> !link.touched().resume_convert_pending,
        !link.client ==> link.touched() == link,
        link.touched().client == link.client && link.touched().session == link.session,
        link.touched().pending_since == link.pending_since,
{
}

/// An operation with a connection ends the wait for a resumed conversion; it touches nothing else.
pub proof fn an_operation_touches_only_the_wait(link: EngineLink)
    ensures
        link.touched() == (EngineLink {
            resume_convert_pending: link.touched().resume_convert_pending,
            ..link
        }),
        link.client ==> !link.touched().resume_convert_pending,
        !link.client ==> link.touched() == link,
{
}

/// What the engine committed by itself reaches the document: a committed part of an answer is the
/// prefix of an automatic commit, with the rest of the answer behind it. Without such a part the
/// text is drawn, and a failed call changes nothing.
pub proof fn a_part_that_the_engine_committed_is_not_lost(
    seq: u64,
    text: String,
    reading: String,
    prefix: String,
    committed: Option<String>,
    fault: IoFault,
)
    ensures
        prefix@.len() > 0 ==> live_follows(
            live_of(Ok(Response::LiveResult { seq, text, reading, committed: Some(prefix) })),
        ) == (LiveStep::AutoCommit { prefix, text, reading }),
        (committed is None || committed->0@.len() == 0) && text@.len() > 0 ==> live_follows(
            live_of(Ok(Response::LiveResult { seq, text, reading, committed })),
        ) == LiveStep::Draw(text),
        (committed is None || committed->0@.len() == 0) && text@.len() == 0 ==> live_follows(
            live_of(Ok(Response::LiveResult { seq, text, reading, committed })),
        ) == LiveStep::Nothing,
        live_follows(live_of(Err(fault))) == LiveStep::Nothing,
{
}

} // verus!
