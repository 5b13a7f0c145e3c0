//! The converted clauses of a composition, and the receipt of their commit.

use vstd::prelude::*;
use vstd::string::*;
use crate::text::same_text;

verus! {

/// Which run of the engine, and which state of its learning, a conversion came from.
#[derive(Clone, Debug, PartialEq, Eq)]
pub struct EngineLearningIdentity {
    pub engine_epoch: String,
    pub learning_generation: u64,
}

/// A position in the reading, counted in characters.
#[derive(Clone, Copy, Debug, PartialEq, Eq, Structural)]
pub struct ReadingPosition(pub u32);

/// Where the surface of a clause came from.
#[derive(Clone, Debug, PartialEq, Eq)]
pub enum SurfaceSource {
    /// A candidate of the engine.
    Candidate { token: String, explicitly_selected: bool },
    /// The reading itself.
    Reading,
    /// A surface that the engine's learning no longer stands behind.
    LocalSurface,
}

/// One clause of a conversion.
#[derive(Clone, Debug, PartialEq, Eq)]
pub struct LocalClause {
    pub start: ReadingPosition,
    pub end: ReadingPosition,
    pub surface: String,
    pub source: SurfaceSource,
}

/// The conversion that is shown in the composition.
#[derive(Clone, Debug, PartialEq, Eq)]
pub struct ClauseConversion {
    pub reading: String,
    pub clauses: Vec<LocalClause>,
    pub learning_identity: Option<EngineLearningIdentity>,
    pub sentence_token: Option<String>,
}

/// The surfaces of the clauses, one after the other.
pub open spec fn surfaces(clauses: Seq<LocalClause>) -> Seq<char>
    decreases clauses.len(),
{
    if clauses.len() == 0 {
        Seq::empty()
    } else {
        surfaces(clauses.drop_last()) + clauses.last().surface@
    }
}

/// The source of a surface once its learning is gone.
pub open spec fn unlearned(source: SurfaceSource) -> SurfaceSource {
    match source {
        SurfaceSource::Candidate { .. } => SurfaceSource::LocalSurface,
        other => other,
    }
}

/// Clauses that differ at most in where their surfaces came from show the same text.
pub proof fn surfaces_ignore_sources(a: Seq<LocalClause>, b: Seq<LocalClause>)
    requires
        a.len() == b.len(),
        forall|i: int| 0 <= i < a.len() ==> (#[trigger] a[i]).surface == b[i].surface,
    ensures
        surfaces(a) == surfaces(b),
    decreases a.len(),
{
    if a.len() > 0 {
        assert(a.last().surface == b.last().surface) by {
            assert(a[a.len() - 1].surface == b[a.len() - 1].surface);
        }
        assert forall|i: int| 0 <= i < a.drop_last().len() implies (#[trigger] a.drop_last()[i]).surface
            == b.drop_last()[i].surface by {
            assert(a[i].surface == b[i].surface);
        }
        surfaces_ignore_sources(a.drop_last(), b.drop_last());
    }
}

impl ClauseConversion {
    /// The text of the conversion.
    pub fn text(&self) -> (r: String)
        ensures
            r@ == surfaces(self.clauses@),
    {
        let mut out = String::new();
        let mut i: usize = 0;
        while i < self.clauses.len()
            invariant
                i <= self.clauses.len(),
                out@ == surfaces(self.clauses@.take(i as int)),
            decreases self.clauses.len() - i,
        {
            assert(self.clauses@.take(i + 1).drop_last() == self.clauses@.take(i as int));
            out.append(self.clauses[i].surface.as_str());
            i = i + 1;
        }
        assert(self.clauses@.take(i as int) == self.clauses@);
        out
    }

    /// Forgets all that ties the conversion to the engine's learning. What is shown stays.
    pub fn invalidate_learning(&mut self)
        ensures
            final(self).learning_identity is None,
            final(self).sentence_token is None,
            final(self).reading == old(self).reading,
            final(self).clauses@ == old(self).clauses@.map_values(
                |c: LocalClause| LocalClause { source: unlearned(c.source), ..c },
            ),
            surfaces(final(self).clauses@) == surfaces(old(self).clauses@),
    {
        self.learning_identity = None;
        self.sentence_token = None;
        let mut i: usize = 0;
        while i < self.clauses.len()
            invariant
                i <= self.clauses.len() == old(self).clauses.len(),
                self.learning_identity is None,
                self.sentence_token is None,
                self.reading == old(self).reading,
                forall|k: int|
                    i <= k < self.clauses.len() ==> self.clauses@[k] == old(self).clauses@[k],
                forall|k: int|
                    0 <= k < i ==> (#[trigger] self.clauses@[k]) == (LocalClause {
                        source: unlearned(old(self).clauses@[k].source),
                        ..old(self).clauses@[k]
                    }),
            decreases self.clauses.len() - i,
        {
            let learned = matches!(self.clauses[i].source, SurfaceSource::Candidate { .. });
            if learned {
                self.clauses[i].source = SurfaceSource::LocalSurface;
            }
            i = i + 1;
        }
        proof {
            surfaces_ignore_sources(self.clauses@, old(self).clauses@);
        }
    }

    /// The engine confirmed the identity that its next candidates belong to.
    pub fn configured_learning_identity(&mut self, identity: Option<EngineLearningIdentity>)
        ensures
            *final(self) == (ClauseConversion { learning_identity: identity, ..*old(self) }),
    {
        self.learning_identity = identity;
    }
}

/// Why an interval of a commit teaches nothing.
#[derive(Clone, Copy, Debug, PartialEq, Eq, Structural)]
pub enum NoLearningReason {
    Reading,
    Invalidated,
}

/// What an interval of a commit teaches.
#[derive(Clone, Debug, PartialEq, Eq)]
pub enum IntervalLearning {
    Candidate { token: String, explicitly_selected: bool },
    Nothing { reason: NoLearningReason },
}

/// One clause of a committed text.
#[derive(Clone, Debug, PartialEq, Eq)]
pub struct CommitInterval {
    pub reading_start: ReadingPosition,
    pub reading_end: ReadingPosition,
    pub surface: String,
    pub learning: IntervalLearning,
}

/// Names one commit of one process.
#[derive(Clone, Debug, PartialEq, Eq)]
pub struct CommitId {
    pub client_instance: String,
    pub sequence: u64,
}

impl CommitId {
    /// The same commit of the same process.
    pub open spec fn same_as(self, other: CommitId) -> bool {
        self.client_instance@ == other.client_instance@ && self.sequence == other.sequence
    }

    /// Whether two names are the same.
    pub fn matches_id(&self, other: &CommitId) -> (r: bool)
        ensures
            r == self.same_as(*other),
    {
        self.sequence == other.sequence && same_text(
            self.client_instance.as_str(),
            other.client_instance.as_str(),
        )
    }
}

/// What was written to the document, and how it came about.
#[derive(Clone, Debug, PartialEq, Eq)]
pub struct CommitReceipt {
    pub commit_id: CommitId,
    pub engine_epoch: String,
    pub learning_generation: u64,
    pub reading: String,
    pub text: String,
    pub intervals: Vec<CommitInterval>,
    pub sentence_token: Option<String>,
}

/// Why the engine refused a receipt.
#[derive(Clone, Debug, PartialEq, Eq)]
pub enum ReceiptRejection {
    /// The receipt belongs to a state of the learning that is gone.
    StaleLearningGeneration,
    /// Any other reason, by its name.
    Other(String),
}

/// What the engine did with a receipt.
#[derive(Clone, Debug, PartialEq, Eq)]
pub enum ReceiptStatus {
    Applied,
    AlreadyProcessed,
    Rejected { reason: ReceiptRejection },
}

/// What the commit of a clause teaches.
pub open spec fn learning_of(source: SurfaceSource) -> IntervalLearning {
    match source {
        SurfaceSource::Candidate { token, explicitly_selected } => IntervalLearning::Candidate {
            token,
            explicitly_selected,
        },
        SurfaceSource::Reading => IntervalLearning::Nothing { reason: NoLearningReason::Reading },
        SurfaceSource::LocalSurface => IntervalLearning::Nothing {
            reason: NoLearningReason::Invalidated,
        },
    }
}

/// The interval that the commit of a clause leaves.
pub open spec fn interval_of(clause: LocalClause) -> CommitInterval {
    CommitInterval {
        reading_start: clause.start,
        reading_end: clause.end,
        surface: clause.surface,
        learning: learning_of(clause.source),
    }
}

impl LocalClause {
    /// The interval that the commit of this clause leaves.
    pub fn interval(&self) -> (r: CommitInterval)
        ensures
            r == interval_of(*self),
            r.reading_start == self.start && r.reading_end == self.end && r.surface == self.surface,
            self.source matches SurfaceSource::Candidate { token, explicitly_selected }
                ==> r.learning == (IntervalLearning::Candidate { token, explicitly_selected }),
            !(self.source is Candidate) ==> r.learning is Nothing,
    {
        CommitInterval {
            reading_start: self.start,
            reading_end: self.end,
            surface: self.surface.clone(),
            learning: match &self.source {
                SurfaceSource::Candidate { token, explicitly_selected } => {
                    IntervalLearning::Candidate {
                        token: token.clone(),
                        explicitly_selected: *explicitly_selected,
                    }
                },
                SurfaceSource::Reading => IntervalLearning::Nothing {
                    reason: NoLearningReason::Reading,
                },
                SurfaceSource::LocalSurface => IntervalLearning::Nothing {
                    reason: NoLearningReason::Invalidated,
                },
            },
        }
    }
}

/// Hands out the names of the commits of this process, each one once.
pub struct CommitIds {
    instance: Option<String>,
    last: u64,
}

impl CommitIds {
    /// The name of the process, if it has one.
    pub closed spec fn instance(self) -> Option<String> {
        self.instance
    }

    /// The number of the last name that was handed out.
    pub closed spec fn last(self) -> u64 {
        self.last
    }

    /// Starts numbering for the process with the given name.
    pub fn new(instance: Option<String>) -> (r: Self)
        ensures
            r.instance() == instance,
            r.last() == 0,
    {
        CommitIds { instance, last: 0 }
    }

    /// The next name. There is none without a process name, nor after the last number.
    pub fn next_commit_id(&mut self) -> (r: Option<CommitId>)
        ensures
            final(self).instance() == old(self).instance(),
            r is Some <==> old(self).instance() is Some && old(self).last() < u64::MAX,
            r is Some ==> r->0.client_instance == old(self).instance()->0 && r->0.sequence == old(self).last() + 1 && final(self).last() == r->0.sequence,
            r is None ==> *final(self) == *old(self),
    {
        match &self.instance {
            None => None,
            Some(name) => {
                if self.last == u64::MAX {
                    return None;
                }
                self.last = self.last + 1;
                Some(CommitId { client_instance: name.clone(), sequence: self.last })
            },
        }
    }
}

/// A commit teaches what the user did. A clause that shows a candidate teaches that candidate, and
/// whether the user chose it; a clause that shows its reading, or a surface whose learning is gone,
/// teaches nothing, and says why.
pub proof fn a_commit_teaches_what_was_chosen(clause: LocalClause, token: String, chosen: bool)
    ensures
        ({
            let source = SurfaceSource::Candidate { token, explicitly_selected: chosen };
            let left = interval_of(LocalClause { source, ..clause });
            &&& left.learning is Candidate
            &&& left.learning->token == token
            &&& left.learning->explicitly_selected == chosen
        }),
        interval_of(LocalClause { source: SurfaceSource::Reading, ..clause }).learning == (
        IntervalLearning::Nothing { reason: NoLearningReason::Reading }),
        interval_of(LocalClause { source: SurfaceSource::LocalSurface, ..clause }).learning == (
        IntervalLearning::Nothing { reason: NoLearningReason::Invalidated }),
        interval_of(clause).reading_start == clause.start,
        interval_of(clause).reading_end == clause.end,
        interval_of(clause).surface == clause.surface,
{
}

/// Nothing of a clause is lost in its interval, as far as learning goes: clauses that differ in
/// their stretch, their surface, the candidate or whether it was chosen leave different intervals.
pub proof fn different_choices_leave_different_intervals(a: LocalClause, b: LocalClause)
    requires
        interval_of(a) == interval_of(b),
    ensures
        a == b,
{
}

/// The text of clauses is all their surfaces, in order: clauses without any show nothing, and one
/// more clause adds its surface at the end.
pub proof fn the_text_is_all_surfaces_in_order(clauses: Seq<LocalClause>, more: LocalClause)
    ensures
        surfaces(Seq::<LocalClause>::empty()) == Seq::<char>::empty(),
        surfaces(clauses.push(more)) == surfaces(clauses) + more.surface@,
{
    assert(clauses.push(more).drop_last() =~= clauses);
}

/// Without its learning a clause no longer teaches a candidate; what it shows stays, and a clause
/// that never taught one stays as it was.
pub proof fn an_unlearned_clause_teaches_nothing(clause: LocalClause)
    ensures
        ({
            let after = LocalClause { source: unlearned(clause.source), ..clause };
            &&& interval_of(after).learning is Nothing
            &&& after.surface == clause.surface
            &&& !(clause.source is Candidate) ==> after == clause
            &&& clause.source is Candidate ==> after.source == SurfaceSource::LocalSurface
        }),
{
}

/// Two commits are the same exactly if both the process and the number are.
pub proof fn a_commit_is_its_process_and_number(a: CommitId, b: CommitId)
    ensures
        a.same_as(a),
        a.same_as(b) <==> b.same_as(a),
        a.sequence != b.sequence ==> !a.same_as(b),
        a.client_instance@ != b.client_instance@ ==> !a.same_as(b),
        a.sequence == b.sequence && a.client_instance@ == b.client_instance@ ==> a.same_as(b),
{
}

} // verus!
