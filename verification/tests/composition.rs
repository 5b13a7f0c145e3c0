use nospacekey_tip::text_service::composition::{
    next_composition_end_retry, next_partial_redraw_retry, CommitEnd, CompositionEndStatus,
    CompositionState, PendingEndKeyReservation, PendingEndKeySignature, PendingEndTestDecision,
    COMPOSITION_END_RETRY_MAX, PARTIAL_REDRAW_RETRY_MAX,
};

#[test]
fn retry_sequence_stops_at_bound() {
    let mut count = 0;
    for expected in 1..=PARTIAL_REDRAW_RETRY_MAX {
        count = next_partial_redraw_retry(count).expect("上限までは再試行する");
        assert_eq!(count, expected);
    }
    assert_eq!(next_partial_redraw_retry(count), None);
}

#[test]
fn saturated_counter_never_wraps_into_retry() {
    assert_eq!(next_partial_redraw_retry(u8::MAX), None);
}

#[test]
fn composition_end_retry_is_bounded() {
    assert_eq!(next_composition_end_retry(0), Some(1));
    assert_eq!(
        next_composition_end_retry(COMPOSITION_END_RETRY_MAX - 2),
        Some(COMPOSITION_END_RETRY_MAX - 1)
    );
    assert_eq!(next_composition_end_retry(COMPOSITION_END_RETRY_MAX - 1), None);
    assert_eq!(next_composition_end_retry(COMPOSITION_END_RETRY_MAX), None);
    assert_eq!(next_composition_end_retry(u8::MAX), None);
}

fn sig(context: usize, raw_vk: u32, lparam: isize, modifiers: u8) -> PendingEndKeySignature {
    PendingEndKeySignature::synthetic(context, raw_vk, raw_vk, lparam, modifiers)
}

fn a() -> PendingEndKeySignature {
    sig(1, 0x41, 0x001e0001, 0)
}

fn b() -> PendingEndKeySignature {
    sig(1, 0x42, 0x00300001, 0)
}

#[test]
fn occupied_slot_returns_false_for_a_second_test_and_a_key_is_one_shot() {
    let mut service = CompositionState::new();
    service.composition_end_pending = true;
    assert_eq!(service.pending_end_test_decision(a()), PendingEndTestDecision::Reserve);
    assert_eq!(service.pending_end_test_decision(b()), PendingEndTestDecision::Busy);
    assert!(service.take_pending_end_test(a()));
    assert!(!service.take_pending_end_test(a()));
}

#[test]
fn mismatched_key_discards_slot_and_future_same_vk_is_normal() {
    let mut service = CompositionState::new();
    service.composition_end_pending = true;
    assert_eq!(service.pending_end_test_decision(a()), PendingEndTestDecision::Reserve);
    assert!(!service.take_pending_end_test(b()));
    service.composition_end_pending = false;
    assert_eq!(service.pending_end_test_decision(a()), PendingEndTestDecision::Normal);
    assert!(!service.take_pending_end_test(a()));
}

#[test]
fn close_callback_preserves_exact_pair_once() {
    let mut service = CompositionState::new();
    service.composition_end_pending = true;
    assert_eq!(service.pending_end_test_decision(a()), PendingEndTestDecision::Reserve);
    service.composition_generation = 7;
    service.composition_end_pending = false;
    assert!(service.take_pending_end_test(a()));
    assert!(!service.take_pending_end_test(a()));
}

#[test]
fn lifecycle_invalidation_prevents_old_pair_from_crossing_new_composition() {
    let mut service = CompositionState::new();
    service.composition_end_pending = true;
    assert_eq!(service.pending_end_test_decision(a()), PendingEndTestDecision::Reserve);
    let generation = service.key_pair_generation;
    service.invalidate_pending_end_test_reservation();
    assert_ne!(service.key_pair_generation, generation);
    assert_eq!(service.pending_end_test_decision(b()), PendingEndTestDecision::Reserve);
    assert!(service.take_pending_end_test(b()));
    assert!(!service.take_pending_end_test(a()));
}

#[test]
fn signature_and_generation_mismatch_are_consumed_not_retained() {
    let mut reservation = PendingEndKeyReservation::default();
    let first = a();
    let other_context = sig(2, 0x41, first.lparam, first.modifiers);
    let other_physical_event = sig(1, 0x41, first.lparam + 1, first.modifiers | 0x02);
    assert!(reservation.reserve(first, 7));
    assert!(!reservation.take_if_matches(other_context, 7));
    assert_eq!(reservation.signature(), None);
    assert_eq!(reservation.generation(), None);
    assert!(reservation.reserve(first, 8));
    assert!(!reservation.take_if_matches(other_physical_event, 8));
    assert_eq!(reservation.signature(), None);
    assert_eq!(reservation.generation(), None);

    assert!(reservation.reserve(first, 9));
    assert!(!reservation.take_if_matches(first, 8));
    assert_eq!(reservation.signature(), None);
}

#[test]
fn pending_test_without_pending_expires_old_slot() {
    let mut service = CompositionState::new();
    service.composition_end_pending = true;
    assert_eq!(service.pending_end_test_decision(a()), PendingEndTestDecision::Reserve);
    service.composition_end_pending = false;
    assert_eq!(service.pending_end_test_decision(b()), PendingEndTestDecision::Normal);
    assert!(!service.take_pending_end_test(a()));
}

#[test]
fn shared_started_signal_preflight_invalidates_reentrant_key_once() {
    let mut service = CompositionState::new();
    service.composition_end_pending = true;
    assert_eq!(service.pending_end_test_decision(a()), PendingEndTestDecision::Reserve);
    let initial_generation = service.key_pair_generation;
    let initial_composition_generation = service.composition_generation;

    service.consume_started_composition();
    assert_eq!(service.key_pair_generation, initial_generation);
    assert_eq!(service.pending_end_test_reservation.signature(), Some(a()));

    service.composition_started_signal = true;
    service.consume_started_composition();
    let after_success = service.key_pair_generation;
    assert_ne!(after_success, initial_generation);
    assert_eq!(
        service.composition_generation,
        initial_composition_generation.wrapping_add(1)
    );
    assert_eq!(service.pending_end_test_reservation.signature(), None);
    assert!(!service.take_pending_end_test(a()));

    service.consume_started_composition();
    assert_eq!(service.key_pair_generation, after_success);
    assert_eq!(
        service.composition_generation,
        initial_composition_generation.wrapping_add(1)
    );
}

#[test]
fn transient_retry_then_success_uses_bounded_production_transition() {
    let mut service = CompositionState::new();
    service.composition_end_pending = true;
    service.composition_end_retry_count = 1;

    assert!(!service.apply_pending_end_attempt(CompositionEndStatus::Retryable));
    assert_eq!(service.composition_end_retry_count, 2);
    assert!(service.composition_end_pending);

    assert!(service.apply_pending_end_attempt(CompositionEndStatus::Closed));
    assert!(!service.composition_end_pending);
    assert_eq!(service.composition_end_retry_count, 0);
    assert_eq!(service.composition_end_status, CompositionEndStatus::Closed);

    assert!(service.apply_pending_end_attempt(CompositionEndStatus::Closed));
}

#[test]
fn terminal_and_retry_limit_quarantine_release_pending_state() {
    let mut terminal = CompositionState::new();
    terminal.composition_end_pending = true;
    terminal.composition_end_retry_count = 1;
    assert!(terminal.apply_pending_end_attempt(CompositionEndStatus::Terminal));
    assert!(!terminal.composition_end_pending);
    assert_eq!(terminal.composition_end_status, CompositionEndStatus::Terminal);
    assert!(terminal.apply_pending_end_attempt(CompositionEndStatus::Terminal));

    let mut exhausted = CompositionState::new();
    exhausted.composition_end_pending = true;
    exhausted.composition_end_retry_count = 1;
    assert!(!exhausted.apply_pending_end_attempt(CompositionEndStatus::Retryable));
    assert_eq!(exhausted.composition_end_retry_count, 2);
    assert!(exhausted.apply_pending_end_attempt(CompositionEndStatus::Retryable));
    assert!(!exhausted.composition_end_pending);
    assert_eq!(exhausted.composition_end_retry_count, 0);
    assert_eq!(exhausted.composition_end_status, CompositionEndStatus::Terminal);
    assert!(exhausted.apply_pending_end_attempt(CompositionEndStatus::Terminal));
}

#[test]
fn late_generation_is_not_current_after_quarantine() {
    let mut service = CompositionState::new();
    service.composition_end_pending = true;
    service.pending_end_generation = service.composition_generation;
    assert!(service.pending_end_generation_is_current());

    assert!(service.apply_pending_end_attempt(CompositionEndStatus::Terminal));
    assert!(!service.pending_end_generation_is_current());
}

#[test]
fn an_owed_close_goes_to_its_owner_and_blocks_the_next_commit() {
    let mut service = CompositionState::new();
    assert_eq!(service.begin_finish_pending(9), None);
    assert!(service.begin_commit());
    service.composition = Some(77);
    assert!(!service.do_commit(None));
    assert!(service.do_commit(Some(CommitEnd::Owed {
        context: 5,
        status: CompositionEndStatus::Retryable,
    })));
    assert_eq!(service.composition_end_retry_count, 1);
    assert!(!service.begin_commit());
    assert_eq!(service.begin_finish_pending(9), Some(5));
    assert!(!service
        .finish_pending_composition(CompositionEndStatus::Idle, CompositionEndStatus::Retryable));
    assert!(service
        .finish_pending_composition(CompositionEndStatus::Closed, CompositionEndStatus::Retryable));
    assert_eq!(service.composition, None);
    assert!(service.begin_commit());
    assert!(service.do_commit(Some(CommitEnd::Closed)));
}

#[test]
fn the_rest_of_a_partial_commit_is_drawn_a_bounded_number_of_times() {
    let mut service = CompositionState::new();
    assert!(!service.arm_partial_preedit_redraw_retry());
    service.partial_preedit_redraw_pending = true;
    for _ in 0..PARTIAL_REDRAW_RETRY_MAX {
        assert!(service.arm_partial_preedit_redraw_retry());
    }
    assert!(!service.arm_partial_preedit_redraw_retry());
    assert!(service.wants_partial_redraw(true));
    assert!(!service.redraw_partial_preedit(true));
    service.composition = Some(1);
    assert!(service.redraw_partial_preedit(true));
    assert!(!service.partial_preedit_redraw_pending);
    service.partial_preedit_redraw_pending = true;
    assert!(!service.wants_partial_redraw(false));
    assert!(!service.partial_preedit_redraw_pending);
    assert!(PendingEndKeySignature::from_context(None, 1, 1, 1, 1).is_none());
    assert_eq!(
        PendingEndKeySignature::from_context(Some(1), 0x41, 0x41, 0x001e0001, 0),
        Some(a())
    );
}
