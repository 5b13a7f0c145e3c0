use nospacekey_tip::prediction_state::{CommitSource, Invalidation};
use nospacekey_tip::prediction_worker::{IpcPredictionOutcome, IpcPredictionResult};
use nospacekey_tip::text_service::prediction_ui::{
    consume_expected_prediction_commit_end_edit, prediction_mode_allows_display,
    prediction_scope_is_sensitive, prediction_slot_available, DeferredPredictionPreservedKey,
    FinishReport, FinishStart, PollStep, PredictionUi, RetryStep, ShowFacts,
    PREDICTION_RETRY_MAX,
};

#[test]
fn old_physical_slot_blocks_a_new_field_until_cleanup() {
    assert!(prediction_slot_available(false, false));
    assert!(!prediction_slot_available(true, false));
    assert!(!prediction_slot_available(false, true));
    assert!(!prediction_slot_available(true, true));
}

#[test]
fn prediction_scope_blocks_only_confirmed_sensitive_contexts() {
    assert!(prediction_scope_is_sensitive(true, None));
    assert!(prediction_scope_is_sensitive(false, Some(true)));
    assert!(!prediction_scope_is_sensitive(false, Some(false)));
    assert!(!prediction_scope_is_sensitive(false, None));
}

#[test]
fn prediction_display_requires_stable_native_mode() {
    assert!(prediction_mode_allows_display(false, false));
    assert!(!prediction_mode_allows_display(true, false));
    assert!(!prediction_mode_allows_display(false, true));
}

#[test]
fn expected_commit_end_edit_is_consumed_once() {
    let now: u64 = 1000;
    let mut deadline = Some(now + 300);
    assert!(consume_expected_prediction_commit_end_edit(&mut deadline, false, now));
    assert!(!consume_expected_prediction_commit_end_edit(&mut deadline, false, now));
}

#[test]
fn selection_change_is_never_treated_as_the_committed_text_edit() {
    let now: u64 = 1000;
    let mut deadline = Some(now + 300);
    assert!(!consume_expected_prediction_commit_end_edit(&mut deadline, true, now));
    assert!(deadline.is_none());
}

#[test]
fn delayed_commit_edit_allowance_expires() {
    let now: u64 = 1000;
    let mut deadline = Some(now);
    assert!(!consume_expected_prediction_commit_end_edit(&mut deadline, false, now + 1));
    assert!(deadline.is_none());
}

const LONG: &str = "明日の予定を事前に確認して";

fn facts() -> ShowFacts {
    ShowFacts {
        direct: false,
        ephemeral: false,
        edit_sink: true,
        sink_context: Some(5),
        attribute: true,
        busy: false,
        password: false,
    }
}

fn enabled() -> PredictionUi {
    let mut ui = PredictionUi::new();
    ui.enabled = true;
    ui
}

fn asked(step: PollStep) -> u64 {
    match step {
        PollStep::Ask(request) => request.seq,
        other => panic!("nothing asked: {other:?}"),
    }
}

/// A prediction that stands in context 5 as composition 50.
fn drawn() -> PredictionUi {
    let mut ui = enabled();
    ui.on_explicit_prediction_commit(CommitSource::Enter, LONG, Some(5), false, 0);
    ui.prediction_poll_timer_set(1);
    let seq = asked(ui.fire_prediction_poll(1, false, false, Some(5), None, 300));
    ui.prediction_worker_spawned(true);
    ui.prediction_poll_timer_set(2);
    let outcome = IpcPredictionOutcome {
        seq,
        result: IpcPredictionResult::Prediction("おきます。".into()),
        duration_ms: 20,
    };
    assert!(matches!(
        ui.fire_prediction_poll(2, false, false, Some(5), Some(outcome), 340),
        PollStep::Show { ctx: 5 }
    ));
    assert_eq!(ui.show_prediction_ghost(5, facts()).as_deref(), Some("おきます。"));
    assert!(ui.prediction_ghost_drawn(5, true, Some(50)));
    ui
}

#[test]
fn a_prediction_is_drawn_only_where_layout_is_reported() {
    let mut ui = enabled();
    ui.on_explicit_prediction_commit(CommitSource::Enter, LONG, Some(5), false, 0);
    ui.prediction_poll_timer_set(1);
    assert!(ui.takes_outcome(1, false, false));
    assert!(!ui.takes_outcome(2, false, false));
    assert!(!ui.takes_outcome(1, true, false));
    assert!(!ui.takes_outcome(1, false, true));
    let seq = asked(ui.fire_prediction_poll(1, false, false, None, None, 300));
    ui.prediction_worker_spawned(true);
    ui.prediction_poll_timer_set(2);
    let outcome = IpcPredictionOutcome {
        seq,
        result: IpcPredictionResult::Prediction("おきます。".into()),
        duration_ms: 20,
    };
    assert!(matches!(
        ui.fire_prediction_poll(2, false, false, None, Some(outcome), 340),
        PollStep::Nothing
    ));
}

fn gone() -> FinishReport {
    FinishReport {
        taken: true,
        composition: None,
        context: None,
        finish_pending: None,
        failed_context: None,
    }
}

fn refused() -> FinishReport {
    FinishReport {
        taken: false,
        composition: Some(50),
        context: Some(5),
        finish_pending: Some(false),
        failed_context: None,
    }
}

#[test]
fn a_commit_asks_after_the_debounce_and_shows_the_answer() {
    let ui = drawn();
    assert!(ui.prediction_ghost_visible());
    assert!(ui.prediction_ghost_actionable(false, false));
    assert!(!ui.prediction_ghost_actionable(true, false));
    assert_eq!(ui.poll.wanted, Some(15));
    assert_eq!(ui.context, Some(5));
}

#[test]
fn nothing_is_asked_where_nothing_may_be_predicted() {
    let mut ui = PredictionUi::new();
    ui.on_explicit_prediction_commit(CommitSource::Enter, LONG, Some(5), false, 0);
    assert_eq!(ui.poll.wanted, None);
    let mut ui = enabled();
    ui.on_explicit_prediction_commit(CommitSource::Enter, "", Some(5), false, 0);
    ui.on_explicit_prediction_commit(CommitSource::Enter, LONG, None, false, 0);
    ui.on_explicit_prediction_commit(CommitSource::Enter, LONG, Some(5), true, 0);
    assert_eq!((ui.poll.wanted, ui.anchor_gen), (None, 0));
    assert!(!ui.state.has_private_state());
    ui.on_explicit_prediction_commit(CommitSource::Enter, LONG, Some(5), false, 7);
    assert_eq!((ui.poll.wanted, ui.anchor_gen), (Some(300), 1));
    assert_eq!(ui.commit_edit_deadline, Some(307));
}

#[test]
fn an_answer_that_is_late_or_unwanted_is_not_shown() {
    let mut ui = enabled();
    ui.on_explicit_prediction_commit(CommitSource::Enter, LONG, Some(5), false, 0);
    ui.prediction_poll_timer_set(1);
    assert!(matches!(ui.fire_prediction_poll(9, false, false, Some(5), None, 300), PollStep::Nothing));
    assert!(matches!(ui.fire_prediction_poll(1, false, false, Some(5), None, 200), PollStep::Nothing));
    assert_eq!(ui.poll.wanted, Some(15));
    ui.prediction_poll_timer_set(2);
    assert!(matches!(ui.fire_prediction_poll(2, false, false, Some(5), None, 300), PollStep::Ask(_)));
    ui.prediction_worker_spawned(true);
    ui.prediction_poll_timer_set(3);
    assert!(matches!(ui.fire_prediction_poll(3, false, false, Some(5), None, 400), PollStep::Nothing));
    assert_eq!(ui.poll.wanted, Some(15));
    ui.prediction_poll_timer_set(4);
    assert!(matches!(ui.fire_prediction_poll(4, false, false, Some(5), None, 9000), PollStep::Nothing));
    assert!(!ui.slot && !ui.state.has_activity());

    ui.on_explicit_prediction_commit(CommitSource::Enter, LONG, Some(5), false, 0);
    ui.prediction_poll_timer_set(5);
    assert!(matches!(ui.fire_prediction_poll(5, false, true, Some(5), None, 300), PollStep::Nothing));
    assert!(!ui.state.has_private_state());
    ui.on_explicit_prediction_commit(CommitSource::Enter, LONG, Some(5), false, 0);
    ui.prediction_worker_spawned(false);
    assert!(!ui.state.has_activity());
    ui.on_explicit_prediction_commit(CommitSource::Enter, LONG, Some(5), false, 0);
    ui.prediction_poll_timer_set(0);
    assert!(!ui.state.has_activity());
}

#[test]
fn a_failed_answer_is_not_asked_for_again() {
    let mut ui = enabled();
    ui.on_explicit_prediction_commit(CommitSource::Enter, LONG, Some(5), false, 0);
    ui.prediction_poll_timer_set(1);
    let seq = asked(ui.fire_prediction_poll(1, false, false, Some(5), None, 300));
    ui.prediction_worker_spawned(true);
    ui.prediction_poll_timer_set(2);
    let failed = IpcPredictionOutcome { seq, result: IpcPredictionResult::Failed, duration_ms: 1 };
    assert!(matches!(
        ui.fire_prediction_poll(2, false, false, Some(5), Some(failed), 310),
        PollStep::Nothing
    ));
    assert!(!ui.slot && !ui.state.has_activity() && ui.state.ghost().is_none());
}

#[test]
fn a_drawing_is_begun_only_in_a_free_place() {
    let shown = |change: fn(&mut PredictionUi, &mut ShowFacts)| {
        let mut ui = drawn();
        ui.composition = None;
        ui.context = None;
        let mut facts = facts();
        change(&mut ui, &mut facts);
        (ui.show_prediction_ghost(5, facts), ui.failed_context, ui.state.ghost().is_some())
    };
    assert_eq!(shown(|_, _| {}), (Some("おきます。".into()), None, true));
    assert_eq!(shown(|_, f| f.direct = true), (None, None, false));
    assert_eq!(shown(|_, f| f.edit_sink = false), (None, Some(5), false));
    assert_eq!(shown(|_, f| f.sink_context = Some(6)), (None, Some(5), false));
    assert_eq!(shown(|u, _| u.composition = Some(1)), (None, None, false));
    assert_eq!(shown(|u, _| u.finish_pending = Some(false)), (None, None, false));
    assert_eq!(shown(|u, _| u.failed_context = Some(5)), (None, Some(5), true));
    assert_eq!(shown(|_, f| f.busy = true), (None, None, true));
    assert_eq!(shown(|_, f| f.password = true), (None, None, true));
    assert_eq!(shown(|_, f| f.attribute = false), (None, None, true));
}

#[test]
fn a_half_drawn_prediction_is_taken_away() {
    let mut ui = drawn();
    assert!(!ui.prediction_ghost_drawn(5, false, Some(51)));
    assert_eq!((ui.finish_pending, ui.retry.wanted), (Some(false), Some(50)));
    assert!(ui.prediction_failed_for(5) && !ui.prediction_failed_for(6));
    assert!(!ui.prediction_ghost_drawn(5, true, None));
    assert_eq!(ui.context, None);
}

#[test]
fn an_accepted_prediction_becomes_text() {
    let mut ui = drawn();
    assert_eq!(
        ui.begin_accept_prediction_ghost(),
        Some(FinishStart::Ask { context: 5, accept: true })
    );
    assert_eq!(ui.finish_pending, Some(true));
    assert!(ui.prediction_cleanup_in_progress());
    let done = ui.prediction_finish_reported(gone(), false);
    assert!(done);
    assert!(ui.accept_prediction_ghost(done, Some(5), 1000));
    assert_eq!((ui.anchor_gen, ui.poll.wanted), (2, Some(300)));
    assert_eq!(ui.begin_accept_prediction_ghost(), None);

    let mut ui = drawn();
    let _ = ui.begin_accept_prediction_ghost();
    let done = ui.prediction_finish_reported(refused(), false);
    assert!(!ui.accept_prediction_ghost(done, None, 1000));
    assert_eq!((ui.finish_pending, ui.failed_context), (Some(false), Some(5)));
    assert_eq!(ui.retry.wanted, Some(50));
    assert!(!ui.state.has_private_state());
}

#[test]
fn a_dismissed_prediction_does_not_come_again() {
    let mut ui = drawn();
    assert_eq!(
        ui.begin_dismiss_prediction_ghost(),
        Some(FinishStart::Ask { context: 5, accept: false })
    );
    let done = ui.prediction_finish_reported(gone(), false);
    assert!(ui.dismiss_prediction_ghost(done, true, None));
    assert!(ui.state.ghost().is_none() && ui.state.has_private_state());

    let mut ui = drawn();
    assert!(ui.dismiss_prediction_ghost(true, false, None));
    assert!(ui.state.ghost().is_none());
    assert!(!ui.dismiss_prediction_ghost(false, false, Some(6)));
    assert_eq!(ui.failed_context, Some(5));
    assert_eq!(ui.begin_dismiss_prediction_ghost(), Some(FinishStart::Ask { context: 5, accept: false }));
    ui.context = None;
    assert_eq!(ui.begin_dismiss_prediction_ghost(), Some(FinishStart::Known(false)));
}

#[test]
fn a_later_request_only_has_to_be_taken() {
    let mut ui = drawn();
    let late = FinishReport { taken: true, ..refused() };
    assert!(ui.prediction_finish_reported(late, true));
    assert!(!ui.prediction_finish_reported(late, false));
    assert!(!ui.prediction_finish_reported(refused(), true));
}

#[test]
fn taking_away_is_tried_eight_times() {
    let mut ui = drawn();
    assert!(ui.invalidate_prediction_after_external_edit().is_some());
    ui.external_edit_finished(false, Some(5));
    assert_eq!(ui.failed_context, Some(5));
    let mut tries = 0;
    let mut id = 100;
    while ui.retry.wanted.is_some() {
        assert_eq!(ui.retry.wanted, Some(50));
        ui.prediction_retry_timer_set(id, Some(5));
        assert_eq!(ui.fire_prediction_finish_retry(id + 1), RetryStep::Nothing);
        assert_eq!(
            ui.fire_prediction_finish_retry(id),
            RetryStep::Finish(FinishStart::Ask { context: 5, accept: false })
        );
        let done = ui.prediction_finish_reported(refused(), true);
        assert!(!ui.prediction_finish_retried(done, Some(5)));
        tries += 1;
        id += 10;
    }
    assert_eq!(tries, PREDICTION_RETRY_MAX);
    ui.retry_prediction_cleanup_on_input();
    assert_eq!((ui.retry_count, ui.retry.wanted), (0, Some(50)));
    ui.prediction_retry_timer_set(7, None);
    ui.composition = None;
    assert_eq!(ui.fire_prediction_finish_retry(7), RetryStep::Resume);
    assert_eq!((ui.context, ui.finish_pending), (None, None));
    assert!(ui.prediction_finish_retried(true, None));
}

#[test]
fn a_retry_timer_that_cannot_be_set_counts_for_a_focused_context() {
    let mut ui = drawn();
    ui.prediction_retry_timer_set(0, Some(6));
    assert_eq!(ui.failed_context, None);
    ui.prediction_retry_timer_set(0, Some(5));
    assert_eq!(ui.failed_context, Some(5));
    let mut ui = PredictionUi::new();
    ui.mark_prediction_tsf_failure_for_owner(None);
    assert_eq!(ui.failed_context, None);
    ui.mark_prediction_tsf_failure_for_owner(Some(3));
    assert_eq!(ui.failed_context, Some(3));
}

#[test]
fn a_preserved_key_is_put_off_once_and_waits_for_the_drawing() {
    let mut ui = drawn();
    ui.defer_prediction_preserved_key(Some(5), 1);
    ui.defer_prediction_preserved_key(None, 2);
    ui.defer_prediction_preserved_key(None, 1);
    assert!(ui.flush_deferred_prediction_preserved_keys_if_ready().is_empty());
    ui.ghost_terminated(true);
    assert_eq!(ui.retry.wanted, Some(50));
    assert_eq!(
        ui.flush_deferred_prediction_preserved_keys_if_ready(),
        vec![
            DeferredPredictionPreservedKey { context: Some(5), guid: 1 },
            DeferredPredictionPreservedKey { context: None, guid: 2 },
        ]
    );
    assert!(ui.deferred.is_empty());
    ui.defer_prediction_preserved_key(None, 3);
    ui.cancel_deferred_prediction_preserved_on_input();
    assert!(ui.deferred.is_empty());
}

#[test]
fn a_left_place_keeps_nothing() {
    let mut ui = drawn();
    ui.defer_prediction_preserved_key(None, 1);
    assert!(ui.begin_abandon_prediction(Invalidation::FocusChanged).is_some());
    assert!(ui.deferred.is_empty() && !ui.state.has_private_state() && !ui.slot);
    assert!(!ui.abandon_prediction_for_context_change(Some(false), None));
    assert_eq!((ui.failed_context, ui.retry.wanted), (Some(5), Some(50)));
    ui.composition = None;
    assert_eq!(ui.begin_abandon_prediction(Invalidation::FocusChanged), None);
    assert!(ui.abandon_prediction_for_context_change(None, None));
    assert_eq!((ui.context, ui.retry.wanted), (None, None));
    ui.switch_off();
    assert_eq!(ui.poll.wanted, None);
}
