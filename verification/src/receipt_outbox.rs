//! Receipts of confirmed document writes: they outlive the composition that they came from,
//! are delivered in order, retried a bounded number of times, and never silently dropped.

use vstd::prelude::*;
use vstd::string::*;
use crate::clause::{
    interval_of, surfaces, unlearned, ClauseConversion, CommitId, CommitIds, CommitInterval,
    CommitReceipt, EngineLearningIdentity, LocalClause, ReceiptRejection, ReceiptStatus,
};
use crate::text::same_text;

verus! {

/// How many receipts may be under way at once.
pub const CAPACITY: usize = 128;

/// How long a receipt is worth delivering.
pub const LIFETIME_MS: u64 = 30_000;

/// How long one attempt may take.
pub const REQUEST_BUDGET_MS: u64 = 1200;

/// How long one attempt may wait for the engine to accept the connection.
pub const CONNECT_BUDGET_MS: u64 = 500;

/// The pause after the first failed attempt.
pub const FIRST_RETRY_MS: u64 = 250;

/// The pause after the second failed attempt.
pub const SECOND_RETRY_MS: u64 = 1000;

/// The longest pause of the worker.
pub const IDLE_MS: u64 = 50;

/// The last moment of the monotonic clock that deadlines are counted from.
pub const CLOCK_LIMIT_MS: u64 = 0xFFFF_FFFF_FFFF_0000;

/// Why a receipt was not delivered.
#[derive(Clone, Debug, PartialEq, Eq)]
pub enum DeliveryNotice {
    Capacity,
    Expired,
    Failed,
    EpochChanged,
    Rejected(ReceiptRejection),
}

/// A receipt on its way.
#[derive(Clone, Debug, PartialEq, Eq)]
pub struct Delivery {
    pub receipt: CommitReceipt,
    pub expires: u64,
    pub next_attempt: u64,
    pub attempts: usize,
}

/// The pause before the attempt that follows `attempts` failed ones, if one follows.
pub open spec fn retry_delay(attempts: usize) -> Option<u64> {
    if attempts == 1 {
        Some(FIRST_RETRY_MS)
    } else if attempts == 2 {
        Some(SECOND_RETRY_MS)
    } else {
        None
    }
}

/// There is another attempt, and it comes before the receipt expires.
pub open spec fn will_retry(d: Delivery, now: u64) -> bool {
    retry_delay(d.attempts) is Some && now + retry_delay(d.attempts)->0 < d.expires
}

impl Delivery {
    /// Something is to be done about the delivery.
    pub open spec fn due(self, now: u64) -> bool {
        self.next_attempt <= now || self.expires <= now
    }

    /// How long until something is to be done.
    pub open spec fn rest(self, now: u64) -> int {
        let at = if self.next_attempt <= self.expires {
            self.next_attempt
        } else {
            self.expires
        };
        if at <= now {
            0
        } else {
            at - now
        }
    }

    /// A delivery that has not used up its attempts.
    pub open spec fn waiting(self) -> bool {
        &&& self.attempts <= 2
        &&& self.attempts == 0 ==> self.next_attempt + LIFETIME_MS == self.expires
        &&& self.attempts > 0 ==> self.next_attempt < self.expires
    }

    /// The delivery of a text that was written at `applied_at`.
    pub fn new(receipt: CommitReceipt, applied_at: u64) -> (r: Self)
        requires
            applied_at <= CLOCK_LIMIT_MS,
        ensures
            r.receipt == receipt,
            r.expires == applied_at + LIFETIME_MS,
            r.next_attempt == applied_at,
            r.attempts == 0,
            r.waiting(),
    {
        Delivery {
            receipt,
            expires: applied_at + LIFETIME_MS,
            next_attempt: applied_at,
            attempts: 0,
        }
    }

    /// Schedules the next attempt. There is none after the last pause, and none past the lifetime.
    pub fn retry(&mut self, now: u64) -> (r: bool)
        requires
            now <= CLOCK_LIMIT_MS,
        ensures
            r == will_retry(*old(self), now),
            final(self).receipt == old(self).receipt,
            final(self).expires == old(self).expires,
            final(self).attempts == old(self).attempts,
            retry_delay(old(self).attempts) is Some ==> final(self).next_attempt == now
                + retry_delay(old(self).attempts)->0,
            retry_delay(old(self).attempts) is None ==> final(self).next_attempt == old(self).next_attempt,
    {
        let delay: u64 = if self.attempts == 1 {
            FIRST_RETRY_MS
        } else if self.attempts == 2 {
            SECOND_RETRY_MS
        } else {
            return false;
        };
        self.next_attempt = now + delay;
        self.next_attempt < self.expires
    }
}

/// What one attempt came to.
#[derive(Clone, Debug, PartialEq, Eq)]
pub enum DeliveryResult {
    Acknowledged(ReceiptStatus),
    Retry,
    EpochChanged,
}

/// What the worker does next.
#[derive(Clone, Copy, Debug, PartialEq, Eq, Structural)]
pub enum WorkerStep {
    /// Deliver the receipt in flight, by the deadline.
    Attempt { deadline: u64 },
    /// A receipt expired; go on.
    Expired,
    /// Nothing is due: wait at most this long for another receipt.
    Wait { ms: u64 },
    /// Nothing is left and nothing can come.
    Stop,
}

/// The highest rejected generation of an epoch.
pub open spec fn watermark_of(rejected: Seq<(String, u64)>, epoch: Seq<char>) -> Option<u64>
    decreases rejected.len(),
{
    if rejected.len() == 0 {
        None
    } else if rejected.last().0@ == epoch {
        Some(rejected.last().1)
    } else {
        watermark_of(rejected.drop_last(), epoch)
    }
}

/// A change of one entry changes the watermark of its epoch only.
proof fn watermark_update(rejected: Seq<(String, u64)>, at: int, value: u64, epoch: Seq<char>)
    requires
        0 <= at < rejected.len(),
        forall|k: int| at < k < rejected.len() ==> (#[trigger] rejected[k]).0@ != rejected[at].0@,
    ensures
        watermark_of(rejected, rejected[at].0@) == Some(rejected[at].1),
        watermark_of(rejected.update(at, (rejected[at].0, value)), epoch) == (if epoch
            == rejected[at].0@ {
            Some(value)
        } else {
            watermark_of(rejected, epoch)
        }),
    decreases rejected.len(),
{
    let changed = rejected.update(at, (rejected[at].0, value));
    if at == rejected.len() - 1 {
        assert(changed.drop_last() == rejected.drop_last());
    } else {
        let rest = rejected.drop_last();
        assert(changed.drop_last() == rest.update(at, (rest[at].0, value)));
        assert forall|k: int| at < k < rest.len() implies (#[trigger] rest[k]).0@ != rest[at].0@ by {
            assert(rejected[k].0@ != rejected[at].0@);
        }
        watermark_update(rest, at, value, epoch);
        assert(rejected[rejected.len() - 1].0@ != rejected[at].0@);
    }
}

/// An epoch that no entry names has no watermark.
proof fn watermark_absent(rejected: Seq<(String, u64)>, epoch: Seq<char>)
    requires
        forall|k: int| 0 <= k < rejected.len() ==> (#[trigger] rejected[k]).0@ != epoch,
    ensures
        watermark_of(rejected, epoch) is None,
    decreases rejected.len(),
{
    if rejected.len() > 0 {
        assert(rejected[rejected.len() - 1].0@ != epoch);
        assert forall|k: int| 0 <= k < rejected.drop_last().len() implies (
        #[trigger] rejected.drop_last()[k]).0@ != epoch by {
            assert(rejected[k].0@ != epoch);
        }
        watermark_absent(rejected.drop_last(), epoch);
    }
}

/// The first delivery about which something is to be done.
pub open spec fn first_due(pending: Seq<Delivery>, at: int, now: u64) -> bool {
    &&& 0 <= at < pending.len()
    &&& pending[at].due(now)
    &&& forall|k: int| 0 <= k < at ==> !(#[trigger] pending[k]).due(now)
}

/// The pause that ends when the first delivery becomes due, or sooner.
pub open spec fn is_wait(pending: Seq<Delivery>, now: u64, ms: u64) -> bool {
    &&& ms <= IDLE_MS
    &&& forall|k: int| 0 <= k < pending.len() ==> ms <= (#[trigger] pending[k]).rest(now)
    &&& ms == IDLE_MS || exists|k: int|
        0 <= k < pending.len() && ms == (#[trigger] pending[k]).rest(now)
}

/// The notice that ends a delivery, and whether the delivery ends at all.
pub open spec fn outcome_of(item: Delivery, result: DeliveryResult, now: u64) -> Option<
    Option<DeliveryNotice>,
> {
    match result {
        DeliveryResult::Acknowledged(ReceiptStatus::Rejected { reason }) => Some(
            Some(DeliveryNotice::Rejected(reason)),
        ),
        DeliveryResult::Acknowledged(_) => Some(None),
        DeliveryResult::EpochChanged => Some(Some(DeliveryNotice::EpochChanged)),
        DeliveryResult::Retry => if will_retry(item, now) {
            None
        } else if now >= item.expires {
            Some(Some(DeliveryNotice::Expired))
        } else {
            Some(Some(DeliveryNotice::Failed))
        },
    }
}

/// The generation that a notice rejects, together with all before it.
pub open spec fn rejected_by(notice: DeliveryNotice, receipt: CommitReceipt) -> Option<u64> {
    match notice {
        DeliveryNotice::EpochChanged => Some(u64::MAX),
        DeliveryNotice::Rejected(ReceiptRejection::StaleLearningGeneration) => Some(
            receipt.learning_generation,
        ),
        _ => None,
    }
}

/// The watermark once `generation` is rejected too.
pub open spec fn raised(old: Option<u64>, generation: u64) -> u64 {
    match old {
        Some(g) if g >= generation => g,
        _ => generation,
    }
}

/// The delivery of the receipt of a text that was written at `applied_at`, before its first attempt.
pub open spec fn delivery_of(receipt: CommitReceipt, applied_at: u64) -> Delivery {
    Delivery {
        receipt,
        expires: (applied_at + LIFETIME_MS) as u64,
        next_attempt: applied_at,
        attempts: 0,
    }
}

/// The receipts of one process that are under way to the engine.
pub struct ReceiptOutbox {
    pipe: String,
    pending: Vec<Delivery>,
    in_flight: Option<Delivery>,
    arrived: Vec<Delivery>,
    outstanding: usize,
    notice: Option<DeliveryNotice>,
    learning_invalidated: bool,
    rejected_generations: Vec<(String, u64)>,
    closed: bool,
}

/// The value of a [`ReceiptOutbox`].
pub struct OutboxModel {
    pub pipe: Seq<char>,
    pub pending: Seq<Delivery>,
    pub in_flight: Option<Delivery>,
    /// What came while one is in flight, behind everything else.
    pub arrived: Seq<Delivery>,
    pub outstanding: nat,
    pub notice: Option<DeliveryNotice>,
    pub invalidated: bool,
    pub rejected: Seq<(String, u64)>,
    pub closed: bool,
}

impl OutboxModel {
    /// Every receipt that was taken on is counted once, and none has used up its attempts.
    pub open spec fn wf(self) -> bool {
        &&& self.outstanding == self.pending.len() + self.arrived.len() + (if self.in_flight is Some {
            1nat
        } else {
            0nat
        })
        &&& self.outstanding <= CAPACITY
        &&& forall|k: int| 0 <= k < self.pending.len() ==> (#[trigger] self.pending[k]).waiting()
        &&& forall|k: int| 0 <= k < self.arrived.len() ==> (#[trigger] self.arrived[k]).waiting()
        &&& self.in_flight is None ==> self.arrived.len() == 0
        &&& self.in_flight is Some ==> 1 <= self.in_flight->0.attempts <= 3
    }

    /// The identity belongs to a rejected generation.
    pub open spec fn rejects(self, identity: EngineLearningIdentity) -> bool {
        match watermark_of(self.rejected, identity.engine_epoch@) {
            Some(g) => identity.learning_generation <= g,
            None => false,
        }
    }

    /// Every watermark is at least as high as before.
    pub open spec fn keeps_watermarks_of(self, before: OutboxModel) -> bool {
        forall|epoch: Seq<char>|
            (#[trigger] watermark_of(before.rejected, epoch)) is Some ==> watermark_of(
                self.rejected,
                epoch,
            ) is Some && watermark_of(before.rejected, epoch)->0 <= watermark_of(
                self.rejected,
                epoch,
            )->0
    }
}

impl View for ReceiptOutbox {
    type V = OutboxModel;

    closed spec fn view(&self) -> OutboxModel {
        OutboxModel {
            pipe: self.pipe@,
            pending: self.pending@,
            in_flight: self.in_flight,
            arrived: self.arrived@,
            outstanding: self.outstanding as nat,
            notice: self.notice,
            invalidated: self.learning_invalidated,
            rejected: self.rejected_generations@,
            closed: self.closed,
        }
    }
}

impl ReceiptOutbox {
    /// An empty outbox towards the engine behind `pipe`.
    pub fn start(pipe: String) -> (r: Self)
        ensures
            r@.wf(),
            r@.pipe == pipe@,
            r@.pending.len() == 0,
            r@.in_flight is None,
            r@.notice is None,
            !r@.invalidated,
            r@.rejected.len() == 0,
            !r@.closed,
    {
        ReceiptOutbox {
            pipe,
            pending: Vec::new(),
            in_flight: None,
            arrived: Vec::new(),
            outstanding: 0,
            notice: None,
            learning_invalidated: false,
            rejected_generations: Vec::new(),
            closed: false,
        }
    }

    /// The pipe of the engine.
    pub fn pipe(&self) -> (r: &str)
        ensures
            r@ == self@.pipe,
    {
        self.pipe.as_str()
    }

    /// No receipt can come any more: the owner is gone, or the worker is.
    pub fn close(&mut self)
        ensures
            final(self)@ == (OutboxModel { closed: true, ..old(self)@ }),
    {
        self.closed = true;
    }

    /// How many receipts are queued, in flight or waiting for a retry.
    pub fn outstanding(&self) -> (r: usize)
        ensures
            r == self@.outstanding,
    {
        self.outstanding
    }

    /// A text was written to the document. The receipt is taken on unless the outbox is full or
    /// nobody is left to deliver it; what was taken on before is never given up for it. While one
    /// is in flight, the receipt waits behind it too.
    pub fn text_applied(&mut self, receipt: CommitReceipt, applied_at: u64) -> (r: bool)
        requires
            old(self)@.wf(),
            applied_at <= CLOCK_LIMIT_MS,
        ensures
            final(self)@.wf(),
            r == (old(self)@.outstanding < CAPACITY && !old(self)@.closed),
            r ==> final(self)@ == (if old(self)@.in_flight is Some {
                OutboxModel {
                    arrived: old(self)@.arrived.push(delivery_of(receipt, applied_at)),
                    outstanding: old(self)@.outstanding + 1,
                    ..old(self)@
                }
            } else {
                OutboxModel {
                    pending: old(self)@.pending.push(delivery_of(receipt, applied_at)),
                    outstanding: old(self)@.outstanding + 1,
                    ..old(self)@
                }
            }),
            !r ==> final(self)@ == (OutboxModel {
                notice: Some(
                    if old(self)@.outstanding >= CAPACITY {
                        DeliveryNotice::Capacity
                    } else {
                        DeliveryNotice::Failed
                    },
                ),
                ..old(self)@
            }),
    {
        if self.outstanding >= CAPACITY {
            self.notice = Some(DeliveryNotice::Capacity);
            return false;
        }
        if self.closed {
            self.notice = Some(DeliveryNotice::Failed);
            return false;
        }
        self.outstanding = self.outstanding + 1;
        let delivery = Delivery::new(receipt, applied_at);
        if self.in_flight.is_some() {
            self.arrived.push(delivery);
        } else {
            self.pending.push(delivery);
        }
        true
    }

    /// Takes the last notice.
    pub fn take_notice(&mut self) -> (r: Option<DeliveryNotice>)
        ensures
            r == old(self)@.notice,
            final(self)@ == (OutboxModel { notice: None, ..old(self)@ }),
    {
        self.notice.take()
    }

    /// Whether the engine's learning was rejected since the last call.
    pub fn take_learning_invalidation(&mut self) -> (r: bool)
        ensures
            r == old(self)@.invalidated,
            final(self)@ == (OutboxModel { invalidated: false, ..old(self)@ }),
    {
        let was = self.learning_invalidated;
        self.learning_invalidated = false;
        was
    }

    fn watermark(&self, epoch: &str) -> (r: Option<u64>)
        ensures
            r == watermark_of(self@.rejected, epoch@),
    {
        let mut i: usize = self.rejected_generations.len();
        assert(self@.rejected.take(i as int) == self@.rejected);
        while i > 0
            invariant
                i <= self.rejected_generations.len(),
                watermark_of(self@.rejected, epoch@) == watermark_of(
                    self@.rejected.take(i as int),
                    epoch@,
                ),
            decreases i,
        {
            let ghost upto = self@.rejected.take(i as int);
            assert(upto.drop_last() == self@.rejected.take(i - 1));
            i = i - 1;
            if same_text(self.rejected_generations[i].0.as_str(), epoch) {
                return Some(self.rejected_generations[i].1);
            }
        }
        None
    }

    /// Whether the identity belongs to a rejected generation of its epoch.
    pub fn rejects_identity(&self, identity: &EngineLearningIdentity) -> (r: bool)
        ensures
            r == self@.rejects(*identity),
    {
        match self.watermark(identity.engine_epoch.as_str()) {
            Some(generation) => identity.learning_generation <= generation,
            None => false,
        }
    }

    /// Cuts a conversion loose from learning that was rejected. The watermarks stay, so that a
    /// late conversion cannot bring rejected learning back.
    pub fn invalidate_model(&self, model: &mut ClauseConversion) -> (r: bool)
        ensures
            r == (old(model).learning_identity is Some && self@.rejects(
                old(model).learning_identity->0,
            )),
            !r ==> *final(model) == *old(model),
            r ==> final(model).learning_identity is None && final(model).sentence_token is None
                && final(model).reading == old(model).reading && final(model).clauses@ == old(model).clauses@.map_values(
                |c: LocalClause| LocalClause { source: unlearned(c.source), ..c },
            ),
            surfaces(final(model).clauses@) == surfaces(old(model).clauses@),
    {
        let rejected = match &model.learning_identity {
            Some(identity) => self.rejects_identity(identity),
            None => false,
        };
        if rejected {
            model.invalidate_learning();
        }
        rejected
    }

    /// The engine acknowledged an identity. One that was rejected meanwhile is not adopted, and
    /// does not retire newer candidates either.
    pub fn configure_model(
        &self,
        model: &mut ClauseConversion,
        identity: Option<EngineLearningIdentity>,
    )
        ensures
            !(identity is Some && self@.rejects(identity->0)) ==> *final(model) == (
            ClauseConversion { learning_identity: identity, ..*old(model) }),
            identity is Some && self@.rejects(identity->0) ==> (if old(model).learning_identity
                is Some && self@.rejects(old(model).learning_identity->0) {
                final(model).learning_identity is None && final(model).sentence_token is None
                    && final(model).reading == old(model).reading && final(model).clauses@ == old(model).clauses@.map_values(
                    |c: LocalClause| LocalClause { source: unlearned(c.source), ..c },
                )
            } else {
                *final(model) == *old(model)
            }),
            surfaces(final(model).clauses@) == surfaces(old(model).clauses@),
    {
        let rejected = match &identity {
            Some(id) => self.rejects_identity(id),
            None => false,
        };
        if rejected {
            self.invalidate_model(model);
        } else {
            model.configured_learning_identity(identity);
        }
    }

    /// Whether there is still something to deliver or to tell.
    pub fn pending(&self) -> (r: bool)
        ensures
            r == (self@.outstanding != 0 || self@.invalidated || self@.notice is Some),
    {
        self.outstanding != 0 || self.learning_invalidated || self.notice.is_some()
    }

    /// The receipt in flight.
    pub fn in_flight(&self) -> (r: Option<&CommitReceipt>)
        ensures
            r is Some <==> self@.in_flight is Some,
            r is Some ==> *r->0 == self@.in_flight->0.receipt,
    {
        match &self.in_flight {
            Some(item) => Some(&item.receipt),
            None => None,
        }
    }

    /// The worker looks for something to do. The first delivery that is due is either put in
    /// flight or, if its lifetime is over, ended with a notice.
    pub fn step(&mut self, now: u64) -> (r: WorkerStep)
        requires
            old(self)@.wf(),
            old(self)@.in_flight is None,
            now <= CLOCK_LIMIT_MS,
        ensures
            final(self)@.wf(),
            match r {
                WorkerStep::Attempt { deadline } => exists|at: int| #[trigger]
                    first_due(old(self)@.pending, at, now) && now < old(self)@.pending[at].expires
                        && deadline == (if now + REQUEST_BUDGET_MS <= old(self)@.pending[at].expires {
                        now + REQUEST_BUDGET_MS
                    } else {
                        old(self)@.pending[at].expires as int
                    }) && final(self)@ == (OutboxModel {
                        pending: old(self)@.pending.remove(at),
                        in_flight: Some(
                            Delivery {
                                attempts: (old(self)@.pending[at].attempts + 1) as usize,
                                ..old(self)@.pending[at]
                            },
                        ),
                        ..old(self)@
                    }),
                WorkerStep::Expired => exists|at: int| #[trigger]
                    first_due(old(self)@.pending, at, now) && now >= old(self)@.pending[at].expires
                        && final(self)@ == (OutboxModel {
                        pending: old(self)@.pending.remove(at),
                        outstanding: (old(self)@.outstanding - 1) as nat,
                        notice: Some(DeliveryNotice::Expired),
                        ..old(self)@
                    }),
                WorkerStep::Wait { ms } => {
                    &&& forall|k: int|
                        0 <= k < old(self)@.pending.len() ==> !(#[trigger] old(self)@.pending[k]).due(now)
                    &&& !(old(self)@.closed && old(self)@.pending.len() == 0)
                    &&& is_wait(old(self)@.pending, now, ms)
                    &&& final(self)@ == old(self)@
                },
                WorkerStep::Stop => old(self)@.closed && old(self)@.pending.len() == 0 && final(self)@ == old(self)@,
            },
    {
        let mut at: usize = 0;
        let mut ms: u64 = IDLE_MS;
        while at < self.pending.len()
            invariant
                self@ == old(self)@,
                old(self)@.wf(),
                old(self)@.in_flight is None,
                now <= CLOCK_LIMIT_MS,
                at <= self.pending.len(),
                ms <= IDLE_MS,
                forall|k: int| 0 <= k < at ==> !(#[trigger] old(self)@.pending[k]).due(now),
                forall|k: int| 0 <= k < at ==> ms <= (#[trigger] old(self)@.pending[k]).rest(now),
                ms == IDLE_MS || exists|k: int|
                    0 <= k < at && ms == (#[trigger] old(self)@.pending[k]).rest(now),
            decreases self.pending.len() - at,
        {
            let next_attempt: u64 = self.pending[at].next_attempt;
            let expires: u64 = self.pending[at].expires;
            assert(old(self)@.pending[at as int].waiting());
            if next_attempt <= now || expires <= now {
                assert(first_due(old(self)@.pending, at as int, now));
                let mut item = self.pending.remove(at);
                if now >= item.expires {
                    self.notice = Some(DeliveryNotice::Expired);
                    self.outstanding = self.outstanding - 1;
                    assert(first_due(old(self)@.pending, at as int, now));
                    return WorkerStep::Expired;
                }
                item.attempts = item.attempts + 1;
                let budget: u64 = now + REQUEST_BUDGET_MS;
                let deadline: u64 = if budget <= item.expires {
                    budget
                } else {
                    item.expires
                };
                self.in_flight = Some(item);
                assert(first_due(old(self)@.pending, at as int, now));
                return WorkerStep::Attempt { deadline };
            }
            let moment: u64 = if next_attempt <= expires {
                next_attempt
            } else {
                expires
            };
            if moment - now < ms {
                ms = moment - now;
            }
            assert(ms <= old(self)@.pending[at as int].rest(now));
            at = at + 1;
        }
        if self.closed && self.pending.len() == 0 {
            return WorkerStep::Stop;
        }
        WorkerStep::Wait { ms }
    }

    fn raise_watermark(&mut self, epoch: String, generation: u64)
        ensures
            final(self)@ == (OutboxModel { rejected: final(self)@.rejected, ..old(self)@ }),
            forall|e: Seq<char>| #[trigger]
                watermark_of(final(self)@.rejected, e) == (if e == epoch@ {
                    Some(raised(watermark_of(old(self)@.rejected, e), generation))
                } else {
                    watermark_of(old(self)@.rejected, e)
                }),
    {
        let ghost before = self@.rejected;
        let mut i: usize = self.rejected_generations.len();
        while i > 0
            invariant
                self@ == old(self)@,
                before == self@.rejected,
                before == self.rejected_generations@,
                i <= self.rejected_generations.len(),
                forall|k: int| i <= k < before.len() ==> (#[trigger] before[k]).0@ != epoch@,
            decreases i,
        {
            i = i - 1;
            if same_text(self.rejected_generations[i].0.as_str(), epoch.as_str()) {
                let old_generation: u64 = self.rejected_generations[i].1;
                let value: u64 = if old_generation >= generation {
                    old_generation
                } else {
                    generation
                };
                let name = self.rejected_generations[i].0.clone();
                self.rejected_generations[i] = (name, value);
                proof {
                    assert(self@.rejected == before.update(i as int, (before[i as int].0, value)));
                    assert forall|e: Seq<char>| #[trigger]
                        watermark_of(self@.rejected, e) == (if e == epoch@ {
                            Some(raised(watermark_of(before, e), generation))
                        } else {
                            watermark_of(before, e)
                        }) by {
                        watermark_update(before, i as int, value, e);
                    }
                }
                return;
            }
        }
        proof {
            watermark_absent(before, epoch@);
        }
        self.rejected_generations.push((epoch, generation));
        proof {
            assert(self@.rejected.drop_last() == before);
        }
    }

    /// The attempt is over. A delivery that is tried again goes behind what waited before it, and
    /// what arrived meanwhile goes behind both. A delivery that ends leaves its notice before it
    /// leaves the count; rejected learning is remembered apart from the notice, which a later one
    /// may replace.
    pub fn finish_attempt(&mut self, result: DeliveryResult, now: u64)
        requires
            old(self)@.wf(),
            old(self)@.in_flight is Some,
            now <= CLOCK_LIMIT_MS,
        ensures
            final(self)@.wf(),
            final(self)@.in_flight is None,
            final(self)@.pipe == old(self)@.pipe,
            final(self)@.closed == old(self)@.closed,
            match outcome_of(old(self)@.in_flight->0, result, now) {
                None => final(self)@ == (OutboxModel {
                    pending: old(self)@.pending.push(
                        Delivery {
                            next_attempt: (now + retry_delay(
                                old(self)@.in_flight->0.attempts,
                            )->0) as u64,
                            ..old(self)@.in_flight->0
                        },
                    ) + old(self)@.arrived,
                    in_flight: None,
                    arrived: Seq::empty(),
                    ..old(self)@
                }),
                Some(None) => final(self)@ == (OutboxModel {
                    pending: old(self)@.pending + old(self)@.arrived,
                    in_flight: None,
                    arrived: Seq::empty(),
                    outstanding: (old(self)@.outstanding - 1) as nat,
                    ..old(self)@
                }),
                Some(Some(notice)) => {
                    let receipt = old(self)@.in_flight->0.receipt;
                    &&& final(self)@.pending == old(self)@.pending + old(self)@.arrived
                    &&& final(self)@.outstanding == old(self)@.outstanding - 1
                    &&& final(self)@.notice == Some(notice)
                    &&& final(self)@.invalidated == (old(self)@.invalidated || rejected_by(
                        notice,
                        receipt,
                    ) is Some)
                    &&& match rejected_by(notice, receipt) {
                        Some(generation) => forall|e: Seq<char>| #[trigger]
                            watermark_of(final(self)@.rejected, e) == (if e
                                == receipt.engine_epoch@ {
                                Some(raised(watermark_of(old(self)@.rejected, e), generation))
                            } else {
                                watermark_of(old(self)@.rejected, e)
                            }),
                        None => final(self)@.rejected == old(self)@.rejected,
                    }
                },
            },
    {
        let mut item = match self.in_flight.take() {
            Some(item) => item,
            None => return,
        };
        let notice: DeliveryNotice = match result {
            DeliveryResult::Acknowledged(ReceiptStatus::Rejected { reason }) => {
                DeliveryNotice::Rejected(reason)
            },
            DeliveryResult::Acknowledged(_) => {
                self.pending.append(&mut self.arrived);
                self.outstanding = self.outstanding - 1;
                return;
            },
            DeliveryResult::EpochChanged => DeliveryNotice::EpochChanged,
            DeliveryResult::Retry => {
                if item.retry(now) {
                    self.pending.push(item);
                    self.pending.append(&mut self.arrived);
                    return;
                }
                if now >= item.expires {
                    DeliveryNotice::Expired
                } else {
                    DeliveryNotice::Failed
                }
            },
        };
        let generation: Option<u64> = match &notice {
            DeliveryNotice::EpochChanged => Some(u64::MAX),
            DeliveryNotice::Rejected(ReceiptRejection::StaleLearningGeneration) => Some(
                item.receipt.learning_generation,
            ),
            _ => None,
        };
        if let Some(generation) = generation {
            self.raise_watermark(item.receipt.engine_epoch.clone(), generation);
            self.learning_invalidated = true;
        }
        self.pending.append(&mut self.arrived);
        self.notice = Some(notice);
        self.outstanding = self.outstanding - 1;
    }
}

/// The receipt says what the conversion shows and where each clause came from.
pub open spec fn is_receipt_of(
    receipt: CommitReceipt,
    model: ClauseConversion,
    text: Seq<char>,
    sequence: u64,
    instance: String,
) -> bool {
    &&& model.learning_identity is Some
    &&& receipt.commit_id == (CommitId { client_instance: instance, sequence })
    &&& receipt.engine_epoch == model.learning_identity->0.engine_epoch
    &&& receipt.learning_generation == model.learning_identity->0.learning_generation
    &&& receipt.reading == model.reading
    &&& receipt.text@ == text
    &&& receipt.intervals@ == model.clauses@.map_values(|c: LocalClause| interval_of(c))
    &&& receipt.sentence_token == model.sentence_token
}

/// A receipt can be made: the conversion is tied to the engine's learning, it shows exactly the
/// text that is committed, and there is a name left for the commit.
pub open spec fn can_freeze(model: ClauseConversion, text: Seq<char>, ids: CommitIds) -> bool {
    model.learning_identity is Some && surfaces(model.clauses@) == text && ids.instance() is Some
        && ids.last() < u64::MAX
}

/// Freezes what a conversion shows into the receipt of its commit, if the protocol's own
/// `validate` accepts it. A name is used up only for a receipt that is put together.
pub fn freeze<F: Fn(&CommitReceipt) -> bool>(
    model: &ClauseConversion,
    text: &str,
    ids: &mut CommitIds,
    validate: F,
) -> (r: Option<CommitReceipt>)
    requires
        forall|receipt: &CommitReceipt|
            can_freeze(*model, text@, *old(ids)) ==> #[trigger] validate.requires((receipt,)),
    ensures
        final(ids).instance() == old(ids).instance(),
        can_freeze(*model, text@, *old(ids)) ==> final(ids).last() == old(ids).last() + 1,
        !can_freeze(*model, text@, *old(ids)) ==> r is None && *final(ids) == *old(ids),
        r is Some ==> is_receipt_of(
            r->0,
            *model,
            text@,
            final(ids).last(),
            old(ids).instance()->0,
        ) && validate.ensures((&r->0,), true),
        can_freeze(*model, text@, *old(ids)) && r is None ==> exists|refused: CommitReceipt|
            is_receipt_of(
                refused,
                *model,
                text@,
                final(ids).last(),
                old(ids).instance()->0,
            ) && #[trigger] validate.ensures((&refused,), false),
{
    let identity = match &model.learning_identity {
        None => return None,
        Some(identity) => identity,
    };
    let shown = model.text();
    if !same_text(shown.as_str(), text) {
        return None;
    }
    let commit_id = match ids.next_commit_id() {
        None => return None,
        Some(id) => id,
    };
    let mut intervals: Vec<CommitInterval> = Vec::new();
    let mut i: usize = 0;
    while i < model.clauses.len()
        invariant
            i <= model.clauses.len(),
            intervals@ == model.clauses@.take(i as int).map_values(
                |c: LocalClause| interval_of(c),
            ),
        decreases model.clauses.len() - i,
    {
        intervals.push(model.clauses[i].interval());
        i = i + 1;
    }
    assert(model.clauses@.take(i as int) == model.clauses@);
    let sentence_token = match &model.sentence_token {
        Some(token) => Some(token.clone()),
        None => None,
    };
    let receipt = CommitReceipt {
        commit_id,
        engine_epoch: identity.engine_epoch.clone(),
        learning_generation: identity.learning_generation,
        reading: model.reading.clone(),
        text: text.to_owned(),
        intervals,
        sentence_token,
    };
    if validate(&receipt) {
        Some(receipt)
    } else {
        None
    }
}

/// Freezes the receipt of a commit if there is a conversion to freeze.
pub fn prepare_commit_receipt<F: Fn(&CommitReceipt) -> bool>(
    local_clauses: &Option<ClauseConversion>,
    text: &str,
    ids: &mut CommitIds,
    validate: F,
) -> (r: Option<CommitReceipt>)
    requires
        forall|receipt: &CommitReceipt|
            local_clauses is Some && can_freeze(local_clauses->0, text@, *old(ids))
                ==> #[trigger] validate.requires((receipt,)),
    ensures
        final(ids).instance() == old(ids).instance(),
        !(local_clauses is Some && can_freeze(local_clauses->0, text@, *old(ids))) ==> r is None
            && *final(ids) == *old(ids),
        local_clauses is Some && can_freeze(local_clauses->0, text@, *old(ids)) ==> final(ids).last()
            == old(ids).last() + 1,
        r is Some ==> is_receipt_of(
            r->0,
            local_clauses->0,
            text@,
            final(ids).last(),
            old(ids).instance()->0,
        ) && validate.ensures((&r->0,), true),
        local_clauses is Some && can_freeze(local_clauses->0, text@, *old(ids)) && r is None
            ==> exists|refused: CommitReceipt|
            is_receipt_of(
                refused,
                local_clauses->0,
                text@,
                final(ids).last(),
                old(ids).instance()->0,
            ) && #[trigger] validate.ensures((&refused,), false),
{
    match local_clauses {
        None => None,
        Some(model) => freeze(model, text, ids, validate),
    }
}

/// What the surrounding text service has to do about the outbox.
#[derive(Clone, Debug, PartialEq, Eq)]
pub struct ReceiptPoll {
    /// Ask the conversion worker for the engine's current learning.
    pub refresh_learning: bool,
    /// The shown candidates came from rejected learning.
    pub hide_candidates: bool,
    /// Tell the user that a commit was not learned from.
    pub notice: Option<DeliveryNotice>,
}

impl ReceiptOutbox {
    /// Takes what the worker left behind and applies it to the conversion that is shown.
    pub fn poll_receipt_notice(&mut self, local_clauses: &mut Option<ClauseConversion>) -> (r:
        ReceiptPoll)
        ensures
            r.refresh_learning == old(self)@.invalidated,
            r.notice == old(self)@.notice,
            r.hide_candidates == (old(self)@.invalidated && (*old(local_clauses)) is Some && (*old(local_clauses))->0.learning_identity is Some && old(self)@.rejects(
                (*old(local_clauses))->0.learning_identity->0,
            )),
            final(self)@ == (OutboxModel { invalidated: false, notice: None, ..old(self)@ }),
            !r.hide_candidates ==> *final(local_clauses) == *old(local_clauses),
            r.hide_candidates ==> (*final(local_clauses)) is Some && (*final(local_clauses))->0.learning_identity is None && (*final(local_clauses))->0.sentence_token is None
                && (*final(local_clauses))->0.reading == (*old(local_clauses))->0.reading && (*final(local_clauses))->0.clauses@ == (*old(local_clauses))->0.clauses@.map_values(
                |c: LocalClause| LocalClause { source: unlearned(c.source), ..c },
            ),
    {
        let refresh_learning = self.take_learning_invalidation();
        let mut hide_candidates = false;
        if refresh_learning {
            match local_clauses.take() {
                None => {},
                Some(model) => {
                    let mut model = model;
                    hide_candidates = self.invalidate_model(&mut model);
                    *local_clauses = Some(model);
                },
            }
        }
        ReceiptPoll { refresh_learning, hide_candidates, notice: self.take_notice() }
    }
}

/// What the transport does next for one attempt.
#[derive(Clone, Copy, Debug, PartialEq, Eq, Structural)]
pub enum TransportAction {
    /// Connect to the engine and verify it, within this time.
    Connect { budget_ms: u64 },
    /// Send the receipt unchanged.
    Send,
    /// The engine is another one than the receipt belongs to.
    EpochChanged,
}

/// The connection that receipts are delivered on, known by the epoch of its engine.
pub struct EngineReceiptTransport {
    client_epoch: Option<String>,
}

impl EngineReceiptTransport {
    /// The epoch of the connected engine.
    pub closed spec fn epoch(self) -> Option<Seq<char>> {
        crate::text::opt_view(self.client_epoch)
    }

    /// A transport without a connection.
    pub fn new() -> (r: Self)
        ensures
            r.epoch() is None,
    {
        EngineReceiptTransport { client_epoch: None }
    }

    /// What an attempt starts with. The receipt goes out with its own generation: the engine
    /// looks it up in its ledger before it turns an older one down.
    pub fn deliver(&self, receipt: &CommitReceipt, deadline: u64, now: u64) -> (r: TransportAction)
        ensures
            r == match self.epoch() {
                None => TransportAction::Connect {
                    budget_ms: if deadline <= now {
                        0
                    } else if deadline - now <= CONNECT_BUDGET_MS {
                        (deadline - now) as u64
                    } else {
                        CONNECT_BUDGET_MS
                    },
                },
                Some(epoch) => if epoch == receipt.engine_epoch@ {
                    TransportAction::Send
                } else {
                    TransportAction::EpochChanged
                },
            },
    {
        match &self.client_epoch {
            None => {
                let left: u64 = deadline.saturating_sub(now);
                TransportAction::Connect {
                    budget_ms: if left <= CONNECT_BUDGET_MS {
                        left
                    } else {
                        CONNECT_BUDGET_MS
                    },
                }
            },
            Some(epoch) => {
                if same_text(epoch.as_str(), receipt.engine_epoch.as_str()) {
                    TransportAction::Send
                } else {
                    TransportAction::EpochChanged
                }
            },
        }
    }

    /// The connection was made, or not. Without one the attempt is over.
    pub fn connected(&mut self, epoch: Option<String>) -> (r: Option<DeliveryResult>)
        ensures
            final(self).epoch() == crate::text::opt_view(epoch),
            r == (if epoch is None {
                Some(DeliveryResult::Retry)
            } else {
                None
            }),
    {
        let failed = epoch.is_none();
        self.client_epoch = epoch;
        if failed {
            Some(DeliveryResult::Retry)
        } else {
            None
        }
    }

    /// The engine answered, or the request failed. Only an acknowledgement of this very commit
    /// counts; after anything else the connection is given up.
    pub fn answered(
        &mut self,
        receipt: &CommitReceipt,
        ack: Option<(CommitId, ReceiptStatus)>,
    ) -> (r: DeliveryResult)
        ensures
            match ack {
                Some((id, status)) => if id.same_as(receipt.commit_id) {
                    r == DeliveryResult::Acknowledged(status) && final(self).epoch() == old(self).epoch()
                } else {
                    r == DeliveryResult::Retry && final(self).epoch() is None
                },
                None => r == DeliveryResult::Retry && final(self).epoch() is None,
            },
    {
        match ack {
            Some((id, status)) => {
                if id.matches_id(&receipt.commit_id) {
                    return DeliveryResult::Acknowledged(status);
                }
            },
            None => {},
        }
        self.client_epoch = None;
        DeliveryResult::Retry
    }
}

/// A delivery is tried three times at most, and never past the lifetime that it began with.
pub proof fn a_retry_never_outlives_its_receipt(item: Delivery, now: u64)
    ensures
        will_retry(item, now) ==> 1 <= item.attempts <= 2,
        item.attempts >= 3 ==> !will_retry(item, now),
        item.expires <= now ==> !will_retry(item, now),
{
}

/// Rejected learning stays rejected: watermarks only rise, whatever the worker reports and
/// whether or not its notices were read.
pub proof fn watermarks_only_rise(before: OutboxModel, after: OutboxModel, epoch: Seq<char>, generation: u64)
    requires
        forall|e: Seq<char>| #[trigger]
            watermark_of(after.rejected, e) == (if e == epoch {
                Some(raised(watermark_of(before.rejected, e), generation))
            } else {
                watermark_of(before.rejected, e)
            }),
    ensures
        after.keeps_watermarks_of(before),
        watermark_of(after.rejected, epoch) is Some,
        generation <= watermark_of(after.rejected, epoch)->0,
{
    assert forall|e: Seq<char>| (#[trigger] watermark_of(before.rejected, e)) is Some implies watermark_of(
        after.rejected,
        e,
    ) is Some && watermark_of(before.rejected, e)->0 <= watermark_of(after.rejected, e)->0 by {
        assert(watermark_of(after.rejected, e) == (if e == epoch {
            Some(raised(watermark_of(before.rejected, e), generation))
        } else {
            watermark_of(before.rejected, e)
        }));
    }
}

/// Once an epoch changed under a receipt, no generation of that epoch is accepted again.
pub proof fn a_changed_epoch_rejects_every_generation(m: OutboxModel, identity: EngineLearningIdentity)
    requires
        watermark_of(m.rejected, identity.engine_epoch@) == Some(u64::MAX),
    ensures
        m.rejects(identity),
{
}

/// Rejection is closed downwards: with a generation, every earlier one of the epoch is rejected.
pub proof fn rejection_covers_earlier_generations(
    m: OutboxModel,
    later: EngineLearningIdentity,
    earlier: EngineLearningIdentity,
)
    requires
        later.engine_epoch@ == earlier.engine_epoch@,
        earlier.learning_generation <= later.learning_generation,
        m.rejects(later),
    ensures
        m.rejects(earlier),
{
}

/// A receipt says what was written and how it came about, clause by clause: the stretch of the
/// reading, the surface, and for a candidate which one it was and whether the user chose it.
pub proof fn a_receipt_tells_how_each_clause_came_about(
    receipt: CommitReceipt,
    model: ClauseConversion,
    text: Seq<char>,
    sequence: u64,
    instance: String,
)
    requires
        is_receipt_of(receipt, model, text, sequence, instance),
    ensures
        receipt.text@ == text,
        receipt.reading == model.reading,
        receipt.sentence_token == model.sentence_token,
        receipt.commit_id.sequence == sequence,
        receipt.commit_id.client_instance == instance,
        model.learning_identity is Some,
        receipt.engine_epoch == model.learning_identity->0.engine_epoch,
        receipt.learning_generation == model.learning_identity->0.learning_generation,
        receipt.intervals@.len() == model.clauses@.len(),
        forall|i: int|
            0 <= i < model.clauses@.len() ==> {
                let clause = model.clauses@[i];
                let left = #[trigger] receipt.intervals@[i];
                &&& left.reading_start == clause.start
                &&& left.reading_end == clause.end
                &&& left.surface == clause.surface
                &&& clause.source matches crate::clause::SurfaceSource::Candidate {
                    token,
                    explicitly_selected,
                } ==> left.learning == (crate::clause::IntervalLearning::Candidate {
                    token,
                    explicitly_selected,
                })
                &&& !(clause.source is Candidate) ==> left.learning is Nothing
            },
{
}

/// Two conversions leave the same receipt only if they show the same clauses, chosen in the same
/// way.
pub proof fn a_receipt_gives_the_clauses_back(
    receipt: CommitReceipt,
    a: ClauseConversion,
    b: ClauseConversion,
    text: Seq<char>,
    sequence: u64,
    instance: String,
)
    requires
        is_receipt_of(receipt, a, text, sequence, instance),
        is_receipt_of(receipt, b, text, sequence, instance),
    ensures
        a.clauses@ == b.clauses@,
        a.reading == b.reading,
        a.learning_identity == b.learning_identity,
        a.sentence_token == b.sentence_token,
{
    assert(receipt.intervals@.len() == a.clauses@.len());
    assert(receipt.intervals@.len() == b.clauses@.len());
    assert forall|i: int| 0 <= i < a.clauses@.len() implies a.clauses@[i] == b.clauses@[i] by {
        assert(receipt.intervals@[i] == interval_of(a.clauses@[i]));
        assert(receipt.intervals@[i] == interval_of(b.clauses@[i]));
        crate::clause::different_choices_leave_different_intervals(a.clauses@[i], b.clauses@[i]);
    }
    assert(a.clauses@ =~= b.clauses@);
}

/// A receipt is made of exactly the text that is shown, of a conversion that the engine's learning
/// stands behind, and while there are names left.
pub proof fn a_receipt_needs_the_shown_text(
    model: ClauseConversion,
    more: LocalClause,
    text: Seq<char>,
    ids: CommitIds,
)
    ensures
        can_freeze(model, text, ids) ==> model.learning_identity is Some && ids.instance() is Some
            && ids.last() < u64::MAX && text == surfaces(model.clauses@),
        can_freeze(model, text, ids) && text.len() > 0 ==> model.clauses@.len() > 0,
        model.learning_identity is Some && ids.instance() is Some && ids.last() < u64::MAX
            ==> can_freeze(model, surfaces(model.clauses@), ids),
        forall|other: Seq<char>|
            can_freeze(model, text, ids) && other != text ==> !can_freeze(model, other, ids),
{
}

/// A failed attempt is repeated after a quarter of a second, a second failed one after a second,
/// and a third one never; nor is anything tried once the receipt has expired.
pub proof fn failed_attempts_are_repeated_twice(item: Delivery, now: u64)
    ensures
        item.attempts == 1 ==> (will_retry(item, now) <==> now + 250 < item.expires),
        item.attempts == 2 ==> (will_retry(item, now) <==> now + 1000 < item.expires),
        item.attempts != 1 && item.attempts != 2 ==> !will_retry(item, now),
        retry_delay(1) == Some(250u64),
        retry_delay(2) == Some(1000u64),
{
}

/// The worker never misses a moment: it acts on a delivery exactly from its next attempt or its end
/// on, takes the one that has waited longest in the queue, and while it waits none becomes due.
pub proof fn nothing_due_is_passed_over(pending: Seq<Delivery>, at: int, now: u64, ms: u64, later: u64)
    ensures
        forall|k: int|
            0 <= k < pending.len() ==> ((#[trigger] pending[k]).due(now) <==> pending[k].next_attempt
                <= now || pending[k].expires <= now),
        first_due(pending, at, now) ==> 0 <= at < pending.len() && (pending[at].next_attempt <= now
            || pending[at].expires <= now),
        first_due(pending, at, now) ==> forall|k: int|
            0 <= k < at ==> now < (#[trigger] pending[k]).next_attempt && now < pending[k].expires,
        is_wait(pending, now, ms) ==> ms <= 50,
        is_wait(pending, now, ms) && later < now + ms ==> forall|k: int|
            0 <= k < pending.len() ==> later < (#[trigger] pending[k]).next_attempt && later
                < pending[k].expires || pending[k].rest(now) == 0,
        is_wait(pending, now, ms) && ms < 50 ==> exists|k: int|
            0 <= k < pending.len() && ((#[trigger] pending[k]).next_attempt <= now + ms
                || pending[k].expires <= now + ms),
{
    if is_wait(pending, now, ms) && ms < 50 {
        let k = choose|k: int| 0 <= k < pending.len() && ms == (#[trigger] pending[k]).rest(now);
        assert(pending[k].next_attempt <= now + ms || pending[k].expires <= now + ms);
    }
}

/// How a delivery ends: an acknowledged one without a word, a rejected one with its reason, one of
/// another epoch and one that ran out of time or attempts with a notice. Only a failed attempt that
/// may be repeated does not end it.
pub proof fn a_delivery_ends_with_its_result(item: Delivery, reason: ReceiptRejection, now: u64)
    ensures
        outcome_of(item, DeliveryResult::Acknowledged(ReceiptStatus::Applied), now) == Some(
            None::<DeliveryNotice>,
        ),
        outcome_of(item, DeliveryResult::Acknowledged(ReceiptStatus::AlreadyProcessed), now) == Some(
            None::<DeliveryNotice>,
        ),
        outcome_of(item, DeliveryResult::Acknowledged(ReceiptStatus::Rejected { reason }), now)
            == Some(Some(DeliveryNotice::Rejected(reason))),
        outcome_of(item, DeliveryResult::EpochChanged, now) == Some(
            Some(DeliveryNotice::EpochChanged),
        ),
        outcome_of(item, DeliveryResult::Retry, now) is None <==> (item.attempts == 1 && now + 250
            < item.expires || item.attempts == 2 && now + 1000 < item.expires),
        item.expires <= now ==> outcome_of(item, DeliveryResult::Retry, now) == Some(
            Some(DeliveryNotice::Expired),
        ),
        now < item.expires && item.attempts >= 3 ==> outcome_of(item, DeliveryResult::Retry, now)
            == Some(Some(DeliveryNotice::Failed)),
{
}

/// Which learning is rejected: all of an epoch once the engine is another one, the generation of
/// the receipt and all before it once the engine calls it stale, and none otherwise.
pub proof fn only_stale_learning_is_rejected(receipt: CommitReceipt, name: String)
    ensures
        rejected_by(DeliveryNotice::EpochChanged, receipt) == Some(u64::MAX),
        rejected_by(
            DeliveryNotice::Rejected(ReceiptRejection::StaleLearningGeneration),
            receipt,
        ) == Some(receipt.learning_generation),
        rejected_by(DeliveryNotice::Rejected(ReceiptRejection::Other(name)), receipt) is None,
        rejected_by(DeliveryNotice::Expired, receipt) is None,
        rejected_by(DeliveryNotice::Failed, receipt) is None,
        rejected_by(DeliveryNotice::Capacity, receipt) is None,
{
}

/// The watermark of an epoch is the last one noted for it, and notes about other epochs do not
/// count; raised, it is the higher of the two. Exactly the generations up to it are rejected.
pub proof fn a_watermark_is_the_highest_rejected_generation(
    m: OutboxModel,
    rejected: Seq<(String, u64)>,
    entry: (String, u64),
    epoch: Seq<char>,
    identity: EngineLearningIdentity,
)
    ensures
        watermark_of(Seq::<(String, u64)>::empty(), epoch) is None,
        watermark_of(rejected.push(entry), entry.0@) == Some(entry.1),
        epoch != entry.0@ ==> watermark_of(rejected.push(entry), epoch) == watermark_of(
            rejected,
            epoch,
        ),
        raised(None, entry.1) == entry.1,
        raised(Some(identity.learning_generation), entry.1) >= entry.1,
        raised(Some(identity.learning_generation), entry.1) >= identity.learning_generation,
        raised(Some(identity.learning_generation), entry.1) == entry.1 || raised(
            Some(identity.learning_generation),
            entry.1,
        ) == identity.learning_generation,
        m.rejects(identity) <==> watermark_of(m.rejected, identity.engine_epoch@) is Some
            && identity.learning_generation <= watermark_of(
            m.rejected,
            identity.engine_epoch@,
        )->0,
{
    assert(rejected.push(entry).drop_last() =~= rejected);
}

/// A delivery begins at the moment of the commit, has half a minute, and was not tried yet; its
/// receipt goes out unchanged.
pub proof fn a_delivery_begins_with_the_commit(receipt: CommitReceipt, applied_at: u64)
    requires
        applied_at <= CLOCK_LIMIT_MS,
    ensures
        delivery_of(receipt, applied_at).receipt == receipt,
        delivery_of(receipt, applied_at).next_attempt == applied_at,
        delivery_of(receipt, applied_at).expires == applied_at + 30000,
        delivery_of(receipt, applied_at).attempts == 0,
        delivery_of(receipt, applied_at).due(applied_at),
{
}

/// The count is that of the receipts: one for each that waits, arrived or is in flight, and never
/// more than the outbox holds.
pub proof fn every_receipt_is_counted(m: OutboxModel)
    requires
        m.wf(),
    ensures
        m.in_flight is Some ==> m.outstanding == m.pending.len() + m.arrived.len() + 1,
        m.in_flight is None ==> m.outstanding == m.pending.len() && m.arrived.len() == 0,
        m.outstanding <= 128,
        m.in_flight is Some ==> m.in_flight->0.attempts <= 3,
{
}

/// A delivery that waits has at most two attempts behind it; a new one has 30 seconds, and a try
/// that is due later than its end is never waited for.
pub proof fn a_waiting_delivery_has_time_left(d: Delivery)
    requires
        d.waiting(),
    ensures
        d.attempts <= 2,
        d.attempts == 0 ==> d.expires == d.next_attempt + 30000,
        d.attempts > 0 ==> d.next_attempt < d.expires,
        d.next_attempt < d.expires,
{
}

/// Where something is due there is a first one, and it is the only first one.
pub proof fn something_due_is_found(pending: Seq<Delivery>, k: int, now: u64) -> (at: int)
    requires
        0 <= k < pending.len(),
        pending[k].next_attempt <= now || pending[k].expires <= now,
    ensures
        first_due(pending, at, now),
        at <= k,
        forall|other: int| #[trigger] first_due(pending, other, now) ==> other == at,
    decreases k,
{
    if exists|j: int| 0 <= j < k && (#[trigger] pending[j]).due(now) {
        let j = choose|j: int| 0 <= j < k && (#[trigger] pending[j]).due(now);
        something_due_is_found(pending, j, now)
    } else {
        assert(pending[k].due(now));
        k
    }
}

/// A receipt has half a minute: time enough for every attempt with its pauses, on a clock that does
/// not run out before.
pub proof fn every_attempt_has_its_time()
    ensures
        CAPACITY == 128,
        LIFETIME_MS == 30000 && IDLE_MS == 50,
        CONNECT_BUDGET_MS == 500 && REQUEST_BUDGET_MS == 1200,
        FIRST_RETRY_MS == 250 && SECOND_RETRY_MS == 1000,
        3 * (CONNECT_BUDGET_MS + REQUEST_BUDGET_MS) + FIRST_RETRY_MS + SECOND_RETRY_MS < LIFETIME_MS,
        CLOCK_LIMIT_MS == u64::MAX - 0xFFFF && CLOCK_LIMIT_MS + LIFETIME_MS <= u64::MAX,
{
}

/// What was rejected once stays rejected: no watermark is lost or lowered.
pub proof fn a_rejected_generation_stays_rejected(
    before: OutboxModel,
    after: OutboxModel,
    identity: EngineLearningIdentity,
)
    requires
        after.keeps_watermarks_of(before),
        before.rejects(identity),
    ensures
        after.rejects(identity),
        watermark_of(after.rejected, identity.engine_epoch@) is Some,
        watermark_of(before.rejected, identity.engine_epoch@)->0 <= watermark_of(
            after.rejected,
            identity.engine_epoch@,
        )->0,
        identity.learning_generation <= watermark_of(after.rejected, identity.engine_epoch@)->0,
{
}

} // verus!
