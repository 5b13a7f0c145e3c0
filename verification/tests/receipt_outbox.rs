use nospacekey_tip::clause::{
    ClauseConversion, CommitId, CommitIds, CommitInterval, CommitReceipt, EngineLearningIdentity,
    IntervalLearning, LocalClause, NoLearningReason, ReadingPosition, ReceiptRejection,
    ReceiptStatus, SurfaceSource,
};
use nospacekey_tip::receipt_outbox::{
    freeze, prepare_commit_receipt, Delivery, DeliveryNotice, DeliveryResult,
    EngineReceiptTransport, ReceiptOutbox, TransportAction, WorkerStep, FIRST_RETRY_MS,
    LIFETIME_MS, REQUEST_BUDGET_MS, SECOND_RETRY_MS,
};

fn receipt() -> CommitReceipt {
    CommitReceipt {
        commit_id: CommitId {
            client_instance: "11111111-1111-4111-8111-111111111111".into(),
            sequence: 1,
        },
        engine_epoch: "original-engine".into(),
        learning_generation: 7,
        reading: "あ".into(),
        text: "あ".into(),
        sentence_token: None,
        intervals: vec![CommitInterval {
            reading_start: ReadingPosition(0),
            reading_end: ReadingPosition(1),
            surface: "あ".into(),
            learning: IntervalLearning::Nothing { reason: NoLearningReason::Reading },
        }],
    }
}

/// Runs the worker until it stops, answering from the script; gives the receipts that went out
/// and when.
fn run(
    outbox: &mut ReceiptOutbox,
    script: &mut Vec<DeliveryResult>,
    start: u64,
) -> Vec<(CommitReceipt, u64)> {
    let mut events = Vec::new();
    let mut now = start;
    loop {
        match outbox.step(now) {
            WorkerStep::Attempt { deadline } => {
                assert!(deadline <= now + REQUEST_BUDGET_MS);
                events.push((outbox.in_flight().unwrap().clone(), now));
                let result = if script.is_empty() {
                    DeliveryResult::Acknowledged(ReceiptStatus::Applied)
                } else {
                    script.remove(0)
                };
                outbox.finish_attempt(result, now);
            }
            WorkerStep::Expired => {}
            WorkerStep::Wait { ms } => {
                assert!(ms <= 50);
                now += ms.max(1);
            }
            WorkerStep::Stop => return events,
        }
    }
}

#[test]
fn retry_keeps_id_payload_and_schedule_after_owner_drops() {
    let mut outbox = ReceiptOutbox::start("pipe".into());
    let payload = receipt();
    assert!(outbox.text_applied(payload.clone(), 1000));
    outbox.close();
    let mut script = vec![
        DeliveryResult::Retry,
        DeliveryResult::Retry,
        DeliveryResult::Acknowledged(ReceiptStatus::AlreadyProcessed),
    ];
    let events = run(&mut outbox, &mut script, 1000);
    assert_eq!(events.len(), 3);
    assert!(events.iter().all(|(actual, _)| actual == &payload));
    assert!(events[1].1 - events[0].1 >= FIRST_RETRY_MS);
    assert!(events[2].1 - events[1].1 >= SECOND_RETRY_MS);
}

#[test]
fn capacity_includes_in_flight_and_does_not_evict_accepted_receipts() {
    let mut outbox = ReceiptOutbox::start("pipe".into());
    assert!(outbox.text_applied(receipt(), 0));
    assert!(matches!(outbox.step(0), WorkerStep::Attempt { .. }));
    for sequence in 2..=128 {
        let mut next = receipt();
        next.commit_id.sequence = sequence;
        assert!(outbox.text_applied(next, 0));
    }
    assert!(!outbox.text_applied(receipt(), 0));
    assert_eq!(outbox.take_notice(), Some(DeliveryNotice::Capacity));
    outbox.finish_attempt(DeliveryResult::Acknowledged(ReceiptStatus::Applied), 0);
    outbox.close();
    let events = run(&mut outbox, &mut Vec::new(), 0);
    assert_eq!(1 + events.len(), 128);
    assert_eq!(events.last().unwrap().0.commit_id.sequence, 128);
}

#[test]
fn expired_and_permanent_failures_are_terminal() {
    for (age, result, expected, attempts) in [
        (LIFETIME_MS, DeliveryResult::Retry, DeliveryNotice::Expired, 0),
        (0, DeliveryResult::EpochChanged, DeliveryNotice::EpochChanged, 1),
        (
            0,
            DeliveryResult::Acknowledged(ReceiptStatus::Rejected {
                reason: ReceiptRejection::StaleLearningGeneration,
            }),
            DeliveryNotice::Rejected(ReceiptRejection::StaleLearningGeneration),
            1,
        ),
    ] {
        let mut outbox = ReceiptOutbox::start("pipe".into());
        assert!(outbox.text_applied(receipt(), LIFETIME_MS - age));
        outbox.close();
        let events = run(&mut outbox, &mut vec![result], LIFETIME_MS);
        assert_eq!(outbox.take_notice(), Some(expected));
        assert_eq!(events.len(), attempts);
    }
}

#[test]
fn retry_never_extends_the_original_lifetime_or_exceeds_three_attempts() {
    let applied = 5000;
    let mut delivery = Delivery::new(receipt(), applied);
    delivery.attempts = 1;
    assert!(delivery.retry(applied));
    delivery.attempts = 2;
    assert!(delivery.retry(applied + 1000));
    delivery.attempts = 3;
    assert!(!delivery.retry(applied + 2000));
    delivery.attempts = 1;
    assert!(!delivery.retry(applied + LIFETIME_MS - 100));
    assert_eq!(delivery.expires, applied + LIFETIME_MS);
}

#[test]
fn a_fast_failure_keeps_polling_until_its_notice_is_consumed() {
    let mut outbox = ReceiptOutbox::start("pipe".into());
    assert!(outbox.text_applied(receipt(), 0));
    assert!(matches!(outbox.step(0), WorkerStep::Attempt { .. }));
    outbox.finish_attempt(DeliveryResult::EpochChanged, 0);
    assert_eq!(outbox.outstanding(), 0);
    assert!(outbox.pending());
    assert_eq!(outbox.take_notice(), Some(DeliveryNotice::EpochChanged));
    assert!(outbox.pending());
    // A later notice does not erase the invalidation.
    for _ in 0..128 {
        assert!(outbox.text_applied(receipt(), 0));
    }
    assert!(!outbox.text_applied(receipt(), 0));
    assert_eq!(outbox.take_notice(), Some(DeliveryNotice::Capacity));
    outbox.close();
    run(&mut outbox, &mut Vec::new(), 0);
    assert!(outbox.take_learning_invalidation());
    assert!(!outbox.take_learning_invalidation());
    assert!(!outbox.pending());
}

fn identity(epoch: &str, generation: u64) -> EngineLearningIdentity {
    EngineLearningIdentity { engine_epoch: epoch.into(), learning_generation: generation }
}

fn clause(index: u32, surface: &str, source: SurfaceSource) -> LocalClause {
    LocalClause {
        start: ReadingPosition(index),
        end: ReadingPosition(index + 1),
        surface: surface.into(),
        source,
    }
}

#[test]
fn rejection_watermark_survives_notification_and_preserves_new_generations() {
    let mut outbox = ReceiptOutbox::start("pipe".into());
    let mut old = receipt();
    old.engine_epoch = "old".into();
    assert!(outbox.text_applied(old, 0));
    assert!(matches!(outbox.step(0), WorkerStep::Attempt { .. }));
    outbox.finish_attempt(
        DeliveryResult::Acknowledged(ReceiptStatus::Rejected {
            reason: ReceiptRejection::StaleLearningGeneration,
        }),
        0,
    );
    assert!(outbox.take_learning_invalidation());
    let mut model = ClauseConversion {
        reading: "あ".into(),
        clauses: vec![clause(
            0,
            "亜",
            SurfaceSource::Candidate { token: "candidate".into(), explicitly_selected: false },
        )],
        learning_identity: None,
        sentence_token: Some("sentence".into()),
    };
    for (epoch, generation, rejected) in [("old", 8, false), ("new", 1, false), ("old", 7, true)] {
        model.learning_identity = Some(identity(epoch, generation));
        let mut configured = model.clone();
        outbox.configure_model(&mut configured, Some(identity("old", 7)));
        assert_eq!(configured.learning_identity.is_none(), rejected);
        assert_eq!(configured.text(), "亜");
        if !rejected {
            assert_eq!(configured.learning_identity, model.learning_identity);
            assert_eq!(configured.clauses, model.clauses);
        }
        assert_eq!(outbox.invalidate_model(&mut model), rejected);
        assert_eq!(model.text(), "亜");
        if !rejected {
            assert!(matches!(model.clauses[0].source, SurfaceSource::Candidate { .. }));
            assert!(model.sentence_token.is_some());
        }
    }
    assert_eq!(model.clauses[0].source, SurfaceSource::LocalSurface);
    assert!(model.learning_identity.is_none() && model.sentence_token.is_none());
    outbox.configure_model(&mut model, Some(identity("old", 9)));
    assert_eq!(model.learning_identity, Some(identity("old", 9)));
}

#[test]
fn frozen_receipt_keeps_non_learning_intervals_and_original_generation() {
    let mut ids = CommitIds::new(Some("11111111-1111-4111-8111-111111111111".into()));
    let mut model = ClauseConversion {
        reading: "あいう".into(),
        clauses: vec![
            clause(0, "あ", SurfaceSource::Reading),
            clause(1, "い", SurfaceSource::Reading),
            clause(2, "う", SurfaceSource::Reading),
        ],
        learning_identity: None,
        sentence_token: None,
    };
    assert!(freeze(&model, "あいう", &mut ids, |_| true).is_none());
    model.learning_identity = Some(identity("old", 7));
    model.clauses[0].source =
        SurfaceSource::Candidate { token: "first".into(), explicitly_selected: true };
    model.clauses[2].source = SurfaceSource::LocalSurface;
    let saved = freeze(&model, "あいう", &mut ids, |_| true).unwrap();
    model.clauses[0].surface = "亜".into();
    model.learning_identity.as_mut().unwrap().learning_generation = 8;
    assert_eq!(saved.text, "あいう");
    assert_eq!(saved.learning_generation, 7);
    assert_eq!(saved.intervals.len(), 3);
    assert!(matches!(
        saved.intervals[1].learning,
        IntervalLearning::Nothing { reason: NoLearningReason::Reading }
    ));
    assert!(matches!(
        saved.intervals[2].learning,
        IntervalLearning::Nothing { reason: NoLearningReason::Invalidated }
    ));
    assert_ne!(saved.commit_id, freeze(&model, "亜いう", &mut ids, |_| true).unwrap().commit_id);
    assert!(freeze(&model, "別の本文", &mut ids, |_| true).is_none());
    assert!(freeze(&model, "亜いう", &mut ids, |_| false).is_none());
    assert!(prepare_commit_receipt(&None, "", &mut ids, |_| true).is_none());
    let mut nameless = CommitIds::new(None);
    assert!(freeze(&model, "亜いう", &mut nameless, |_| true).is_none());
}

#[test]
fn a_closed_outbox_refuses_and_says_so() {
    let mut outbox = ReceiptOutbox::start("pipe".into());
    assert_eq!(outbox.pipe(), "pipe");
    outbox.close();
    assert!(!outbox.text_applied(receipt(), 0));
    assert_eq!(outbox.take_notice(), Some(DeliveryNotice::Failed));
    assert_eq!(outbox.step(0), WorkerStep::Stop);
}

fn numbered(sequence: u64) -> CommitReceipt {
    let mut receipt = receipt();
    receipt.commit_id.sequence = sequence;
    receipt
}

#[test]
fn a_retried_receipt_goes_before_what_arrived_during_its_attempt() {
    let mut outbox = ReceiptOutbox::start("pipe".into());
    assert!(outbox.text_applied(numbered(1), 0));
    assert_eq!(outbox.step(0), WorkerStep::Attempt { deadline: REQUEST_BUDGET_MS });
    assert!(outbox.text_applied(numbered(2), 0));
    assert!(outbox.text_applied(numbered(3), 0));
    assert_eq!(outbox.outstanding(), 3);
    outbox.finish_attempt(DeliveryResult::Retry, 0);
    outbox.close();
    let sent: Vec<u64> = run(&mut outbox, &mut Vec::new(), FIRST_RETRY_MS)
        .iter()
        .map(|(receipt, _)| receipt.commit_id.sequence)
        .collect();
    assert_eq!(sent, vec![1, 2, 3]);
}

#[test]
fn three_failed_attempts_fail_and_late_ones_expire() {
    let mut outbox = ReceiptOutbox::start("pipe".into());
    assert!(outbox.text_applied(receipt(), 0));
    outbox.close();
    let mut script = vec![DeliveryResult::Retry, DeliveryResult::Retry, DeliveryResult::Retry];
    assert_eq!(run(&mut outbox, &mut script, 0).len(), 3);
    assert_eq!(outbox.take_notice(), Some(DeliveryNotice::Failed));

    let mut outbox = ReceiptOutbox::start("pipe".into());
    assert!(outbox.text_applied(receipt(), 0));
    assert_eq!(
        outbox.step(LIFETIME_MS - 10),
        WorkerStep::Attempt { deadline: LIFETIME_MS }
    );
    outbox.finish_attempt(DeliveryResult::Retry, LIFETIME_MS + 1);
    assert_eq!(outbox.take_notice(), Some(DeliveryNotice::Expired));
}

#[test]
fn a_rejection_of_another_kind_leaves_no_watermark() {
    let mut outbox = ReceiptOutbox::start("pipe".into());
    assert!(outbox.text_applied(receipt(), 0));
    assert!(matches!(outbox.step(0), WorkerStep::Attempt { .. }));
    let reason = ReceiptRejection::Other("Malformed".into());
    outbox.finish_attempt(
        DeliveryResult::Acknowledged(ReceiptStatus::Rejected { reason: reason.clone() }),
        0,
    );
    assert_eq!(outbox.take_notice(), Some(DeliveryNotice::Rejected(reason)));
    assert!(!outbox.take_learning_invalidation());
    assert!(!outbox.rejects_identity(&identity("original-engine", 1)));
}

#[test]
fn an_epoch_change_rejects_every_generation_and_hides_candidates_once() {
    let mut outbox = ReceiptOutbox::start("pipe".into());
    assert!(outbox.text_applied(receipt(), 0));
    assert!(matches!(outbox.step(0), WorkerStep::Attempt { .. }));
    outbox.finish_attempt(DeliveryResult::EpochChanged, 0);
    assert!(outbox.rejects_identity(&identity("original-engine", u64::MAX)));
    let mut model = Some(ClauseConversion {
        reading: "あ".into(),
        clauses: vec![clause(0, "亜", SurfaceSource::Reading)],
        learning_identity: Some(identity("original-engine", 99)),
        sentence_token: None,
    });
    let poll = outbox.poll_receipt_notice(&mut model);
    assert!(poll.refresh_learning && poll.hide_candidates);
    assert_eq!(poll.notice, Some(DeliveryNotice::EpochChanged));
    assert_eq!(model.as_ref().unwrap().learning_identity, None);
    let poll = outbox.poll_receipt_notice(&mut model);
    assert!(!poll.refresh_learning && !poll.hide_candidates && poll.notice.is_none());
}

#[test]
fn the_transport_checks_the_epoch_and_the_commit() {
    let mut t = EngineReceiptTransport::new();
    let r = receipt();
    assert_eq!(t.deliver(&r, 2000, 1000), TransportAction::Connect { budget_ms: 500 });
    assert_eq!(t.deliver(&r, 1100, 1000), TransportAction::Connect { budget_ms: 100 });
    assert_eq!(t.deliver(&r, 900, 1000), TransportAction::Connect { budget_ms: 0 });
    assert_eq!(t.connected(None), Some(DeliveryResult::Retry));
    assert_eq!(t.connected(Some("other".into())), None);
    assert_eq!(t.deliver(&r, 2000, 1000), TransportAction::EpochChanged);
    assert_eq!(t.connected(Some("original-engine".into())), None);
    assert_eq!(t.deliver(&r, 2000, 1000), TransportAction::Send);
    assert_eq!(
        t.answered(&r, Some((r.commit_id.clone(), ReceiptStatus::Applied))),
        DeliveryResult::Acknowledged(ReceiptStatus::Applied)
    );
    assert_eq!(t.deliver(&r, 2000, 1000), TransportAction::Send);
    let mut other = r.commit_id.clone();
    other.sequence = 2;
    assert_eq!(t.answered(&r, Some((other, ReceiptStatus::Applied))), DeliveryResult::Retry);
    assert_eq!(t.deliver(&r, 2000, 1000), TransportAction::Connect { budget_ms: 500 });
}
