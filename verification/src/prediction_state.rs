//! The state machine of inline prediction: when to ask, when to show, when to forget.

use vstd::prelude::*;
use vstd::string::*;
use crate::text::{joined, opt_view, same_text, take_head, take_tail};

verus! {

/// How long the text must rest after a commit before a prediction is asked for.
pub const DEBOUNCE_MS: u64 = 300;

/// How long after the request a reply is still welcome.
pub const DEADLINE_MS: u64 = 400;

/// The shortest context worth predicting from.
pub const MIN_CONTEXT_CHARS: usize = 8;

/// The longest context that is kept.
pub const MAX_CONTEXT_CHARS: usize = 256;

/// The longest prediction that is shown.
pub const MAX_PREDICTION_CHARS: usize = 16;

/// The shortest prediction that is shown.
pub const MIN_PREDICTION_CHARS: usize = 2;

/// Addition that stops at the largest value.
pub open spec fn sat_add(a: u64, b: u64) -> u64 {
    if a + b > u64::MAX {
        u64::MAX
    } else {
        (a + b) as u64
    }
}

/// A point on the monotonic clock, in milliseconds.
#[derive(Clone, Copy, Debug, PartialEq, Eq, PartialOrd, Ord)]
pub struct Timestamp(u64);

impl Timestamp {
    /// The milliseconds of this point.
    pub closed spec fn millis(self) -> u64 {
        self.0
    }

    /// The point at `value` milliseconds.
    pub fn from_millis(value: u64) -> (r: Self)
        ensures
            r.millis() == value,
    {
        Timestamp(value)
    }

    /// The point `value` milliseconds later.
    pub fn add_millis(self, value: u64) -> (r: Self)
        ensures
            r.millis() == sat_add(self.millis(), value),
    {
        Timestamp(self.0.saturating_add(value))
    }
}

/// Names the place in the document that a prediction belongs to.
#[derive(Clone, Copy, Debug, PartialEq, Eq, Structural)]
pub struct PredictionAnchor(u64);

impl PredictionAnchor {
    /// The number of this anchor.
    pub closed spec fn value(self) -> u64 {
        self.0
    }

    /// The anchor with the given number.
    pub fn new(value: u64) -> (r: Self)
        ensures
            r.value() == value,
    {
        PredictionAnchor(value)
    }
}

/// Two anchors with the same number are the same anchor.
pub proof fn anchor_is_its_number(a: PredictionAnchor, b: PredictionAnchor)
    ensures
        a.value() == b.value() <==> a == b,
{
}

/// Two timestamps with the same milliseconds are the same timestamp.
pub proof fn timestamp_is_its_millis(a: Timestamp, b: Timestamp)
    ensures
        a.millis() == b.millis() <==> a == b,
{
}

/// What made a text final.
#[derive(Clone, Copy, Debug, PartialEq, Eq, Structural)]
pub enum CommitSource {
    Enter,
    Candidate,
    Clause,
    AcceptedPrediction,
    LiveAuto,
    Partial,
    ImplicitSettle,
}

impl CommitSource {
    /// Only a commit of the whole text that the user asked for starts a prediction.
    pub open spec fn is_explicit(self) -> bool {
        self is Enter || self is Candidate || self is Clause || self is AcceptedPrediction
    }

    /// Whether a commit from this source starts a prediction.
    pub fn starts_prediction(self) -> (r: bool)
        ensures
            r == self.is_explicit(),
    {
        matches!(
            self,
            CommitSource::Enter | CommitSource::Candidate | CommitSource::Clause
                | CommitSource::AcceptedPrediction
        )
    }
}

/// Why the current prediction is no longer wanted.
#[derive(Clone, Copy, Debug, PartialEq, Eq, Structural)]
pub enum Invalidation {
    Input,
    CaretMoved,
    SelectionChanged,
    FocusChanged,
    ModeChanged,
    Disabled,
}

impl Invalidation {
    /// Whether the committed context is forgotten too.
    pub fn clears_context(self) -> (r: bool)
        ensures
            r == !(self is Input),
    {
        !matches!(self, Invalidation::Input)
    }
}

/// A question to the prediction engine.
#[derive(Clone, Debug, PartialEq, Eq)]
pub struct PredictionRequest {
    pub seq: u64,
    pub context_before: String,
    pub anchor: PredictionAnchor,
    pub deadline_at: Timestamp,
}

/// A prediction that is shown behind the caret.
#[derive(Clone, Debug, PartialEq, Eq)]
pub struct PredictionGhost {
    pub seq: u64,
    pub text: String,
    pub anchor: PredictionAnchor,
}

impl View for PredictionRequest {
    type V = RequestModel;

    open spec fn view(&self) -> RequestModel {
        RequestModel {
            seq: self.seq,
            context: self.context_before@,
            anchor: self.anchor,
            deadline: self.deadline_at.millis(),
        }
    }
}

impl View for PredictionGhost {
    type V = GhostModel;

    open spec fn view(&self) -> GhostModel {
        GhostModel { seq: self.seq, text: self.text@, anchor: self.anchor }
    }
}

/// The value of a [`PredictionRequest`].
#[verifier::ext_equal]
pub struct RequestModel {
    pub seq: u64,
    pub context: Seq<char>,
    pub anchor: PredictionAnchor,
    pub deadline: u64,
}

/// The value of a [`PredictionGhost`].
#[verifier::ext_equal]
pub struct GhostModel {
    pub seq: u64,
    pub text: Seq<char>,
    pub anchor: PredictionAnchor,
}

#[derive(Clone, Copy, Debug)]
struct PendingRequest {
    seq: u64,
    anchor: PredictionAnchor,
    deadline_at: Timestamp,
}

/// The request that is waiting for its reply.
pub struct PendingModel {
    pub seq: u64,
    pub anchor: PredictionAnchor,
    pub deadline: u64,
}

/// The value of a [`PredictionState`].
#[verifier::ext_equal]
pub struct PredictionModel {
    pub context: Seq<char>,
    pub next_seq: u64,
    pub debounce: Option<(u64, PredictionAnchor)>,
    pub pending: Option<PendingModel>,
    pub ghost_text: Option<GhostModel>,
    pub suppressed: Option<Seq<char>>,
}

impl PredictionModel {
    /// The state before anything was committed.
    pub open spec fn initial() -> PredictionModel {
        PredictionModel {
            context: Seq::empty(),
            next_seq: 0,
            debounce: None,
            pending: None,
            ghost_text: None,
            suppressed: None,
        }
    }

    /// Something is waiting or visible.
    pub open spec fn active(self) -> bool {
        self.debounce is Some || self.pending is Some || self.ghost_text is Some
    }

    /// What must not cross the border of a document.
    pub open spec fn private(self) -> bool {
        self.active() || self.context.len() > 0 || self.suppressed is Some
    }

    /// The user dismissed a prediction for exactly this context.
    pub open spec fn context_suppressed(self) -> bool {
        self.suppressed == Some(self.context)
    }

    /// Nothing is waiting or visible, and no earlier reply can match.
    pub open spec fn quiet(self) -> PredictionModel {
        PredictionModel {
            next_seq: sat_add(self.next_seq, 1),
            debounce: None,
            pending: None,
            ghost_text: None,
            ..self
        }
    }

    pub open spec fn after_invalidation(self, reason: Invalidation) -> PredictionModel {
        if reason is Input {
            self.quiet()
        } else {
            PredictionModel { context: Seq::empty(), suppressed: None, ..self.quiet() }
        }
    }

    pub open spec fn after_commit(
        self,
        source: CommitSource,
        text: Seq<char>,
        anchor: PredictionAnchor,
        now: u64,
    ) -> PredictionModel {
        if !source.is_explicit() {
            self.after_invalidation(Invalidation::CaretMoved)
        } else {
            let base = if self.active() {
                self.quiet()
            } else {
                self
            };
            let context = crate::text::tail(self.context + text, MAX_CONTEXT_CHARS as int);
            PredictionModel {
                context,
                suppressed: None,
                debounce: if context.len() >= MIN_CONTEXT_CHARS {
                    Some((sat_add(now, DEBOUNCE_MS), anchor))
                } else {
                    None
                },
                ..base
            }
        }
    }

    /// A request goes out: the debounce is over and the context is not suppressed.
    pub open spec fn due(self, now: u64) -> bool {
        !self.context_suppressed() && self.debounce is Some && (self.debounce->0).0 <= now
    }

    pub open spec fn request_at(self, now: u64) -> RequestModel {
        RequestModel {
            seq: sat_add(self.next_seq, 1),
            context: self.context,
            anchor: (self.debounce->0).1,
            deadline: sat_add(now, DEADLINE_MS),
        }
    }

    pub open spec fn after_poll(self, now: u64) -> PredictionModel {
        if self.context_suppressed() {
            PredictionModel { debounce: None, ..self }
        } else if self.due(now) {
            let request = self.request_at(now);
            PredictionModel {
                debounce: None,
                next_seq: request.seq,
                pending: Some(
                    PendingModel {
                        seq: request.seq,
                        anchor: request.anchor,
                        deadline: request.deadline,
                    },
                ),
                ..self
            }
        } else {
            self
        }
    }

    /// A reply is the one that is being waited for.
    pub open spec fn awaits(self, seq: u64) -> bool {
        self.pending is Some && self.pending->0.seq == seq
    }

    /// The prediction that a reply makes visible, if any.
    pub open spec fn shown(self, seq: u64, text: Seq<char>, now: u64) -> Option<GhostModel> {
        if self.awaits(seq) && now <= self.pending->0.deadline && text.len()
            >= MIN_PREDICTION_CHARS {
            Some(
                GhostModel {
                    seq,
                    text: crate::text::head(text, MAX_PREDICTION_CHARS as int),
                    anchor: self.pending->0.anchor,
                },
            )
        } else {
            None
        }
    }

    pub open spec fn after_result(self, seq: u64, text: Seq<char>, now: u64) -> PredictionModel {
        if self.awaits(seq) {
            PredictionModel {
                pending: None,
                ghost_text: if self.shown(seq, text, now) is Some {
                    self.shown(seq, text, now)
                } else {
                    self.ghost_text
                },
                ..self
            }
        } else {
            self
        }
    }

    /// The state that every operation keeps: the context is bounded, what is shown has a
    /// bearable length, and at most one of the three activities is on, under the current number.
    pub open spec fn wf(self) -> bool {
        &&& self.context.len() <= MAX_CONTEXT_CHARS
        &&& self.debounce is Some ==> self.context.len() >= MIN_CONTEXT_CHARS && self.pending is None
            && self.ghost_text is None
        &&& self.pending is Some ==> self.ghost_text is None && self.pending->0.seq == self.next_seq
        &&& self.ghost_text is Some ==> self.ghost_text->0.seq == self.next_seq
            && MIN_PREDICTION_CHARS <= self.ghost_text->0.text.len() <= MAX_PREDICTION_CHARS
    }
}

/// What was committed, what is asked, and what is shown.
#[derive(Debug)]
pub struct PredictionState {
    context_before: String,
    next_seq: u64,
    debounce: Option<(Timestamp, PredictionAnchor)>,
    pending: Option<PendingRequest>,
    visible: Option<PredictionGhost>,
    suppressed_context: Option<String>,
}

impl View for PredictionState {
    type V = PredictionModel;

    closed spec fn view(&self) -> PredictionModel {
        PredictionModel {
            context: self.context_before@,
            next_seq: self.next_seq,
            debounce: match self.debounce {
                Some((at, anchor)) => Some((at.millis(), anchor)),
                None => None,
            },
            pending: match self.pending {
                Some(p) => Some(
                    PendingModel { seq: p.seq, anchor: p.anchor, deadline: p.deadline_at.millis() },
                ),
                None => None,
            },
            ghost_text: match self.visible {
                Some(g) => Some(g@),
                None => None,
            },
            suppressed: opt_view(self.suppressed_context),
        }
    }
}

impl Default for PredictionState {
    fn default() -> (r: Self)
        ensures
            r@ == PredictionModel::initial(),
            r@.wf(),
    {
        PredictionState {
            context_before: String::new(),
            next_seq: 0,
            debounce: None,
            pending: None,
            visible: None,
            suppressed_context: None,
        }
    }
}

impl PredictionState {
    /// A text became final at `anchor`.
    pub fn on_commit(
        &mut self,
        source: CommitSource,
        text: &str,
        anchor: PredictionAnchor,
        now: Timestamp,
    )
        ensures
            final(self)@ == old(self)@.after_commit(source, text@, anchor, now.millis()),
            old(self)@.wf() ==> final(self)@.wf(),
    {
        if !source.starts_prediction() {
            self.invalidate(Invalidation::CaretMoved);
            return;
        }
        if self.debounce.is_some() || self.pending.is_some() || self.visible.is_some() {
            self.next_seq = self.next_seq.saturating_add(1);
            self.debounce = None;
            self.pending = None;
            self.visible = None;
        }
        self.suppressed_context = None;
        let grown = joined(self.context_before.as_str(), text);
        self.context_before = take_tail(grown.as_str(), MAX_CONTEXT_CHARS);
        if self.context_before.as_str().unicode_len() >= MIN_CONTEXT_CHARS {
            self.debounce = Some((now.add_millis(DEBOUNCE_MS), anchor));
        }
    }

    /// The clock moved on: hands out the request that is due.
    pub fn poll(&mut self, now: Timestamp) -> (r: Option<PredictionRequest>)
        ensures
            final(self)@ == old(self)@.after_poll(now.millis()),
            r is Some <==> old(self)@.due(now.millis()),
            r is Some ==> r->0@ == old(self)@.request_at(now.millis()),
            old(self)@.wf() ==> final(self)@.wf(),
    {
        if self.is_current_context_suppressed() {
            self.debounce = None;
            return None;
        }
        match self.debounce {
            None => None,
            Some((due_at, anchor)) => {
                if now.0 < due_at.0 {
                    return None;
                }
                self.debounce = None;
                self.next_seq = self.next_seq.saturating_add(1);
                let request = PredictionRequest {
                    seq: self.next_seq,
                    context_before: self.context_before.clone(),
                    anchor,
                    deadline_at: now.add_millis(DEADLINE_MS),
                };
                self.pending = Some(
                    PendingRequest {
                        seq: request.seq,
                        anchor: request.anchor,
                        deadline_at: request.deadline_at,
                    },
                );
                Some(request)
            },
        }
    }

    /// The current prediction is no longer wanted.
    pub fn invalidate(&mut self, reason: Invalidation)
        ensures
            final(self)@ == old(self)@.after_invalidation(reason),
            !final(self)@.active(),
            old(self)@.wf() ==> final(self)@.wf(),
    {
        self.next_seq = self.next_seq.saturating_add(1);
        self.debounce = None;
        self.pending = None;
        self.visible = None;
        if reason.clears_context() {
            self.context_before = String::new();
            self.suppressed_context = None;
        }
    }

    /// A reply arrived.
    pub fn on_result(&mut self, seq: u64, text: &str, now: Timestamp) -> (r: Option<
        PredictionGhost,
    >)
        ensures
            final(self)@ == old(self)@.after_result(seq, text@, now.millis()),
            r is Some <==> old(self)@.shown(seq, text@, now.millis()) is Some,
            r is Some ==> Some(r->0@) == old(self)@.shown(seq, text@, now.millis()),
            old(self)@.wf() ==> final(self)@.wf(),
    {
        let pending = match self.pending {
            None => return None,
            Some(p) => p,
        };
        if seq != pending.seq {
            return None;
        }
        self.pending = None;
        if now.0 > pending.deadline_at.0 {
            return None;
        }
        let shown = take_head(text, MAX_PREDICTION_CHARS);
        if shown.as_str().unicode_len() < MIN_PREDICTION_CHARS {
            return None;
        }
        self.visible = Some(PredictionGhost { seq, text: shown.clone(), anchor: pending.anchor });
        Some(PredictionGhost { seq, text: shown, anchor: pending.anchor })
    }

    /// Closes a request whose reply did not come in time; a reply after that is stale.
    pub fn expire_pending(&mut self, now: Timestamp) -> (r: bool)
        ensures
            r == (old(self)@.pending is Some && old(self)@.pending->0.deadline < now.millis()),
            final(self)@ == (if r {
                PredictionModel { pending: None, ..old(self)@ }
            } else {
                old(self)@
            }),
            old(self)@.wf() ==> final(self)@.wf(),
    {
        match self.pending {
            None => false,
            Some(p) => {
                if now.0 <= p.deadline_at.0 {
                    false
                } else {
                    self.pending = None;
                    true
                }
            },
        }
    }

    /// The prediction that is shown.
    pub fn ghost(&self) -> (r: Option<&PredictionGhost>)
        ensures
            r is Some <==> self@.ghost_text is Some,
            r is Some ==> Some(r->0@) == self@.ghost_text,
    {
        self.visible.as_ref()
    }

    /// Whether something is waiting or visible.
    pub fn has_activity(&self) -> (r: bool)
        ensures
            r == self@.active(),
    {
        self.debounce.is_some() || self.pending.is_some() || self.visible.is_some()
    }

    /// Whether there is state that must not cross the border of a document: the committed
    /// context and a dismissal steer the next prediction even when nothing is shown.
    pub fn has_private_state(&self) -> (r: bool)
        ensures
            r == self@.private(),
    {
        self.has_activity() || !self.context_before.as_str().is_empty()
            || self.suppressed_context.is_some()
    }

    /// The user took the prediction: its text is committed like any other explicit commit.
    pub fn accept_ghost(&mut self, anchor: PredictionAnchor, now: Timestamp) -> (r: Option<String>)
        ensures
            r is Some <==> old(self)@.ghost_text is Some,
            r is Some ==> r->0@ == old(self)@.ghost_text->0.text && final(self)@ == (
            PredictionModel { ghost_text: None, ..old(self)@ }).after_commit(
                CommitSource::AcceptedPrediction,
                r->0@,
                anchor,
                now.millis(),
            ),
            r is None ==> final(self)@ == old(self)@,
            old(self)@.wf() ==> final(self)@.wf(),
    {
        match self.visible.take() {
            None => None,
            Some(ghost) => {
                let text = ghost.text;
                self.on_commit(CommitSource::AcceptedPrediction, text.as_str(), anchor, now);
                Some(text)
            },
        }
    }

    /// The user waved the prediction away: this context is not predicted from again.
    pub fn dismiss_ghost(&mut self) -> (r: bool)
        ensures
            r == (old(self)@.ghost_text is Some),
            final(self)@ == (if r {
                PredictionModel {
                    ghost_text: None,
                    suppressed: Some(old(self)@.context),
                    ..old(self)@
                }
            } else {
                old(self)@
            }),
            old(self)@.wf() ==> final(self)@.wf(),
    {
        if self.visible.is_none() {
            return false;
        }
        self.visible = None;
        self.suppressed_context = Some(self.context_before.clone());
        true
    }

    /// Whether the current context was dismissed.
    pub fn is_current_context_suppressed(&self) -> (r: bool)
        ensures
            r == self@.context_suppressed(),
    {
        match &self.suppressed_context {
            None => false,
            Some(s) => same_text(s.as_str(), self.context_before.as_str()),
        }
    }
}

/// Whatever ended the prediction, no reply is shown until a new request has gone out.
pub proof fn no_reply_is_shown_after_invalidation(
    m: PredictionModel,
    reason: Invalidation,
    seq: u64,
    text: Seq<char>,
    now: u64,
)
    ensures
        m.after_invalidation(reason).shown(seq, text, now) is None,
        m.after_invalidation(reason).after_result(seq, text, now).ghost_text is None,
{
}

/// A commit makes every reply to an earlier request stale, whatever the commit's source.
pub proof fn no_reply_is_shown_after_a_commit(
    m: PredictionModel,
    source: CommitSource,
    committed: Seq<char>,
    anchor: PredictionAnchor,
    at: u64,
    seq: u64,
    text: Seq<char>,
    now: u64,
)
    ensures
        m.after_commit(source, committed, anchor, at).shown(seq, text, now) is None,
        m.after_commit(source, committed, anchor, at).after_result(seq, text, now).ghost_text
            is None,
{
}

/// A reply to an earlier request is stale even after the next request went out.
pub proof fn an_old_reply_never_answers_a_new_request(m: PredictionModel, old_seq: u64, now: u64)
    requires
        m.wf(),
        old_seq <= m.next_seq,
        m.next_seq < u64::MAX,
        m.due(now),
    ensures
        m.after_poll(now).pending is Some,
        !m.after_poll(now).awaits(old_seq),
{
}

/// A reply that missed its deadline closed the request: nothing is shown for it later.
pub proof fn an_expired_request_stays_closed(
    m: PredictionModel,
    seq: u64,
    late_text: Seq<char>,
    late: u64,
    text: Seq<char>,
    now: u64,
)
    requires
        m.wf(),
        m.awaits(seq),
        m.pending->0.deadline < late,
    ensures
        m.shown(seq, late_text, late) is None,
        !m.after_result(seq, late_text, late).active(),
        m.after_result(seq, late_text, late).shown(seq, text, now) is None,
{
}

/// Commits that the user did not ask for only invalidate: no later moment is due.
pub proof fn an_automatic_commit_never_rearms(
    m: PredictionModel,
    source: CommitSource,
    text: Seq<char>,
    anchor: PredictionAnchor,
    at: u64,
    now: u64,
)
    requires
        !source.is_explicit(),
    ensures
        !m.after_commit(source, text, anchor, at).private(),
        !m.after_commit(source, text, anchor, at).due(now),
{
}

/// After an explicit commit a request goes out exactly when the context is long enough and the
/// debounce has passed, and it carries the last characters of all that was committed.
pub proof fn an_explicit_commit_asks_after_the_debounce(
    m: PredictionModel,
    source: CommitSource,
    text: Seq<char>,
    anchor: PredictionAnchor,
    at: u64,
    now: u64,
)
    requires
        source.is_explicit(),
    ensures
        m.after_commit(source, text, anchor, at).due(now) <==> crate::text::tail(
            m.context + text,
            MAX_CONTEXT_CHARS as int,
        ).len() >= MIN_CONTEXT_CHARS && sat_add(at, DEBOUNCE_MS) <= now,
        m.after_commit(source, text, anchor, at).request_at(now).context == crate::text::tail(
            m.context + text,
            MAX_CONTEXT_CHARS as int,
        ),
        m.after_commit(source, text, anchor, at).due(now) ==> m.after_commit(
            source,
            text,
            anchor,
            at,
        ).request_at(now).anchor == anchor,
{
}

/// A dismissed context is not predicted from, and the next explicit commit lifts that.
pub proof fn a_dismissal_lasts_until_the_next_commit(
    m: PredictionModel,
    now: u64,
    source: CommitSource,
    text: Seq<char>,
    anchor: PredictionAnchor,
    at: u64,
)
    requires
        m.context_suppressed(),
    ensures
        !m.due(now),
        m.after_poll(now).context_suppressed(),
        !m.after_commit(source, text, anchor, at).context_suppressed(),
{
}

/// A change of place or mode leaves nothing private behind.
pub proof fn a_change_of_place_forgets_everything(m: PredictionModel, reason: Invalidation)
    requires
        !(reason is Input),
    ensures
        !m.after_invalidation(reason).private(),
{
}

/// A commit is predicted from together with all that was committed before it. An explicit commit
/// grows the context by its text, keeps the last 256 characters of it, lifts a dismissal, and asks
/// 300 milliseconds later exactly if there are 8 characters to go on. Any other commit forgets it.
pub proof fn a_commit_grows_the_context(
    m: PredictionModel,
    source: CommitSource,
    text: Seq<char>,
    anchor: PredictionAnchor,
    now: u64,
)
    requires
        now + 300 <= u64::MAX,
    ensures
        ({
            let after = m.after_commit(source, text, anchor, now);
            let grown = crate::text::tail(m.context + text, 256);
            let explicit = source is Enter || source is Candidate || source is Clause || source
                is AcceptedPrediction;
            &&& explicit ==> after.context == grown
            &&& explicit ==> after.suppressed is None && after.pending is None && after.ghost_text
                is None
            &&& explicit && grown.len() >= 8 ==> after.debounce == Some(((now + 300) as u64, anchor))
            &&& explicit && grown.len() < 8 ==> after.debounce is None
            &&& !explicit ==> after.context.len() == 0 && after.debounce is None && after.pending
                is None && after.ghost_text is None && after.suppressed is None
            &&& after.next_seq >= m.next_seq
        }),
{
}

/// Two commits are one context: what they leave is the end of both texts together.
pub proof fn two_commits_are_one_context(
    m: PredictionModel,
    first: Seq<char>,
    second: Seq<char>,
    a: PredictionAnchor,
    b: PredictionAnchor,
    at: u64,
    later: u64,
)
    ensures
        m.after_commit(CommitSource::Enter, first, a, at).after_commit(
            CommitSource::Enter,
            second,
            b,
            later,
        ).context == crate::text::tail(m.context + first + second, 256),
{
    crate::text::a_tail_of_a_tail_is_a_tail(m.context + first, second, 256);
}

/// A request goes out with the whole context, once its moment has come, under a number of its own,
/// and is waited for until 400 milliseconds later. Before that moment nothing changes.
pub proof fn a_request_carries_the_context(m: PredictionModel, now: u64)
    requires
        now + 400 <= u64::MAX,
        m.next_seq < u64::MAX,
    ensures
        m.due(now) <==> m.suppressed != Some(m.context) && m.debounce is Some && (m.debounce->0).0
            <= now,
        m.due(now) ==> {
            let request = m.request_at(now);
            let after = m.after_poll(now);
            &&& request.context == m.context
            &&& request.seq == m.next_seq + 1
            &&& request.anchor == (m.debounce->0).1
            &&& request.deadline == now + 400
            &&& after.pending is Some
            &&& after.pending->0.seq == request.seq
            &&& after.pending->0.anchor == request.anchor
            &&& after.pending->0.deadline == request.deadline
            &&& after.debounce is None
            &&& after.next_seq == request.seq
            &&& after.context == m.context
            &&& after.ghost_text == m.ghost_text
            &&& after.suppressed == m.suppressed
        },
        !m.due(now) && m.suppressed != Some(m.context) ==> m.after_poll(now) == m,
        m.suppressed == Some(m.context) ==> m.after_poll(now) == (PredictionModel {
            debounce: None,
            ..m
        }),
{
}

/// A reply is shown exactly if it is the one that is waited for, comes in time and says something:
/// at least 2 characters, of which the first 16 are shown, at the place that was asked from. Either
/// way the request is over, and a reply to another one changes nothing.
pub proof fn a_reply_in_time_is_shown(m: PredictionModel, seq: u64, text: Seq<char>, now: u64)
    ensures
        m.shown(seq, text, now) is Some <==> m.pending is Some && m.pending->0.seq == seq && now
            <= m.pending->0.deadline && text.len() >= 2,
        m.shown(seq, text, now) is Some ==> {
            &&& m.shown(seq, text, now)->0.text == crate::text::head(text, 16)
            &&& m.shown(seq, text, now)->0.seq == seq
            &&& m.shown(seq, text, now)->0.anchor == m.pending->0.anchor
            &&& m.after_result(seq, text, now).ghost_text == m.shown(seq, text, now)
        },
        m.shown(seq, text, now) is None ==> m.after_result(seq, text, now).ghost_text
            == m.ghost_text,
        m.awaits(seq) <==> m.pending is Some && m.pending->0.seq == seq,
        m.awaits(seq) ==> m.after_result(seq, text, now).pending is None,
        !m.awaits(seq) ==> m.after_result(seq, text, now) == m,
        m.after_result(seq, text, now).context == m.context,
        m.after_result(seq, text, now).debounce == m.debounce,
        m.after_result(seq, text, now).suppressed == m.suppressed,
        m.after_result(seq, text, now).next_seq == m.next_seq,
{
}

/// Typing ends what is waited for or shown and keeps what was committed; anything else forgets
/// that too. A number is used up, so that no reply on its way is taken.
pub proof fn typing_keeps_the_context(m: PredictionModel, reason: Invalidation)
    ensures
        ({
            let after = m.after_invalidation(reason);
            &&& after.debounce is None && after.pending is None && after.ghost_text is None
            &&& m.next_seq < u64::MAX ==> after.next_seq == m.next_seq + 1
            &&& reason is Input ==> after.context == m.context && after.suppressed == m.suppressed
            &&& !(reason is Input) ==> after.context.len() == 0 && after.suppressed is None
        }),
        m.active() <==> m.debounce is Some || m.pending is Some || m.ghost_text is Some,
        m.private() <==> m.active() || m.context.len() > 0 || m.suppressed is Some,
        m.context_suppressed() <==> m.suppressed is Some && m.suppressed->0 == m.context,
{
}

/// Sums stop at the largest number and are exact below it.
pub proof fn sums_stop_at_the_end(a: u64, b: u64)
    ensures
        a + b <= u64::MAX ==> sat_add(a, b) == a + b,
        a + b > u64::MAX ==> sat_add(a, b) == u64::MAX,
{
}

/// Nothing is known at first, and no step touches more of what is known than it says: a reply leaves
/// the context, a request the context and what is shown.
pub proof fn each_step_keeps_the_rest(
    m: PredictionModel,
    reason: Invalidation,
    source: CommitSource,
    text: Seq<char>,
    anchor: PredictionAnchor,
    seq: u64,
    now: u64,
)
    ensures
        PredictionModel::initial().context.len() == 0 && PredictionModel::initial().next_seq == 0,
        !PredictionModel::initial().active() && PredictionModel::initial().suppressed is None,
        ({
            let after = m.quiet();
            &&& after == (PredictionModel {
                next_seq: after.next_seq,
                debounce: None,
                pending: None,
                ghost_text: None,
                ..m
            })
            &&& m.next_seq < u64::MAX ==> after.next_seq == m.next_seq + 1
        }),
        m.after_invalidation(Invalidation::Input) == m.quiet(),
        !(reason is Input) ==> ({
            let after = m.after_invalidation(reason);
            after.context.len() == 0 && after.suppressed is None && after == (PredictionModel {
                context: after.context,
                suppressed: after.suppressed,
                ..m.quiet()
            })
        }),
        ({
            let after = m.after_poll(now);
            &&& after == (PredictionModel {
                debounce: after.debounce,
                next_seq: after.next_seq,
                pending: after.pending,
                ..m
            })
            &&& !m.context_suppressed() && !m.due(now) ==> after == m
            &&& m.context_suppressed() || m.due(now) ==> after.debounce is None
            &&& m.context_suppressed() ==> after == (PredictionModel { debounce: None, ..m })
        }),
        ({
            let after = m.after_result(seq, text, now);
            &&& after == (PredictionModel {
                pending: after.pending,
                ghost_text: after.ghost_text,
                ..m
            })
            &&& !m.awaits(seq) ==> after == m
            &&& m.awaits(seq) ==> after.pending is None
            &&& m.shown(seq, text, now) is None ==> after.ghost_text == m.ghost_text
        }),
        source.is_explicit() && !m.active() ==> ({
            let after = m.after_commit(source, text, anchor, now);
            after == (PredictionModel {
                context: after.context,
                suppressed: None,
                debounce: after.debounce,
                ..m
            })
        }),
        source.is_explicit() && m.active() ==> ({
            let after = m.after_commit(source, text, anchor, now);
            after == (PredictionModel {
                context: after.context,
                suppressed: None,
                debounce: after.debounce,
                ..m.quiet()
            })
        }),
{
    assert(m.after_poll(now) =~= (PredictionModel {
        debounce: m.after_poll(now).debounce,
        next_seq: m.after_poll(now).next_seq,
        pending: m.after_poll(now).pending,
        ..m
    }));
}

/// Of a question that waits, one that was asked and a prediction that is shown there is at most one;
/// what is shown has a bearable length, and all go by the newest number.
pub proof fn one_thing_is_under_way(m: PredictionModel)
    requires
        m.wf(),
    ensures
        m.context.len() <= 256,
        m.debounce is Some ==> m.pending is None && m.ghost_text is None && m.context.len() >= 8,
        m.pending is Some ==> m.debounce is None && m.ghost_text is None && m.pending->0.seq
            == m.next_seq,
        m.ghost_text is Some ==> m.debounce is None && m.pending is None && m.ghost_text->0.seq
            == m.next_seq,
        m.ghost_text is Some ==> 2 <= m.ghost_text->0.text.len() <= 16,
{
}

/// A question waits 300 milliseconds and an answer has 400; a context has 8 to 256 characters, a
/// prediction 2 to 16.
pub proof fn the_bounds_of_a_prediction()
    ensures
        DEBOUNCE_MS == 300 && DEADLINE_MS == 400,
        MIN_CONTEXT_CHARS == 8 && MAX_CONTEXT_CHARS == 256,
        MIN_PREDICTION_CHARS == 2 && MAX_PREDICTION_CHARS == 16,
{
}

} // verus!
