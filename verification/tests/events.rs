use nospacekey_tip::prediction_state::CommitSource;
use nospacekey_tip::preedit_apply::Span;
use nospacekey_tip::text_service::events::{AbandonEngine, EndEditStep, TerminatedStep};
use nospacekey_tip::text_service::layout::LayoutQuery;
use nospacekey_tip::text_service::lifecycle::TextService;
use nospacekey_tip::text_service::prediction_ui::FinishStart;
use nospacekey_tip::text_service::preedit::CancelStart;
use nospacekey_tip::text_service::reconvert::{ReconvertKind, ReconvertStep};

const LONG: &str = "明日の予定を事前に確認して";

/// A service that committed a text in context 5 at time 0.
fn committed() -> TextService {
    let mut service = TextService::new();
    service.prediction.enabled = true;
    service.layout.sink_ctx = Some(5);
    service.prediction.on_explicit_prediction_commit(
        CommitSource::Enter,
        LONG,
        Some(5),
        false,
        0,
    );
    service
}

#[test]
fn an_edit_ends_the_prediction_unless_it_is_the_commit_itself() {
    let mut service = TextService::new();
    assert_eq!(service.on_end_edit(false, true, 0), EndEditStep::Nothing);
    let mut service = committed();
    assert_eq!(service.on_end_edit(true, true, 1), EndEditStep::Nothing);
    assert_eq!(service.on_end_edit(false, false, 300), EndEditStep::Settled);
    assert_eq!(
        service.on_end_edit(false, false, 300),
        EndEditStep::Invalidated { finish: None }
    );
    assert!(!service.prediction.state.has_private_state());
    let mut service = committed();
    assert_eq!(
        service.on_end_edit(false, false, 301),
        EndEditStep::Invalidated { finish: None }
    );
    let mut service = committed();
    service.prediction.composition = Some(50);
    service.prediction.context = Some(5);
    service.prediction_editing = true;
    assert_eq!(service.on_end_edit(false, true, 1), EndEditStep::Nothing);
    service.prediction_editing = false;
    assert_eq!(
        service.on_end_edit(false, true, 1),
        EndEditStep::Invalidated {
            finish: Some(FinishStart::Ask { context: 5, accept: false })
        }
    );
}

#[test]
fn only_the_end_of_the_current_composition_counts() {
    let mut service = committed();
    service.comp.composition = Some(3);
    assert_eq!(service.on_composition_terminated(None), TerminatedStep::Stale);
    assert_eq!(service.on_composition_terminated(Some(2)), TerminatedStep::Stale);
    assert_eq!(service.on_composition_terminated(Some(3)), TerminatedStep::Abandon);
    service.partial_committing = true;
    assert_eq!(service.on_composition_terminated(Some(3)), TerminatedStep::PartialCommit);
    service.prediction.composition = Some(50);
    assert_eq!(service.on_composition_terminated(Some(50)), TerminatedStep::Prediction);
    assert_eq!(service.prediction.composition, None);
    assert!(!service.prediction.state.has_activity());
}

#[test]
fn an_owed_close_is_done_when_the_host_ends_the_composition() {
    let mut service = TextService::new();
    service.comp.composition = Some(3);
    service.comp.composition_end_pending = true;
    service.comp.composition_end_context = Some(6);
    service.comp.composition_generation = 2;
    service.comp.pending_end_generation = 1;
    assert_eq!(service.on_composition_terminated(Some(3)), TerminatedStep::StaleGeneration);
    service.comp.pending_end_generation = 2;
    assert_eq!(
        service.on_composition_terminated(Some(3)),
        TerminatedStep::Closed { idle: true, owner: Some(6) }
    );
    assert_eq!(service.comp.composition, None);
    assert!(!service.comp.composition_end_pending);
}

#[test]
fn an_abandoned_composition_leaves_nothing_to_the_next() {
    let mut service = TextService::new();
    service.comp.composition = Some(3);
    service.conv.composing = true;
    service.conv.live_text = "今日は".into();
    service.link.client = true;
    service.link.session = 9;
    assert_eq!(service.reset_abandoned_composition(), AbandonEngine::EndSession);
    assert!(!service.conv.composing && service.conv.live_text.is_empty());
    assert_eq!((service.comp.composition, service.link.session), (None, 9));
    service.conv.awaiting_llm = true;
    let seq = service.conv.llm_seq;
    assert_eq!(service.reset_abandoned_composition(), AbandonEngine::Dropped);
    assert_ne!(service.conv.llm_seq, seq);
    assert_eq!((service.link.client, service.link.session), (false, 0));
}

#[test]
fn a_prediction_does_not_follow_the_focus() {
    let mut service = committed();
    assert_eq!(service.on_set_focus(Some(5)), None);
    assert!(service.prediction.state.has_private_state());
    assert_eq!(service.on_set_focus(Some(6)), Some(None));
    assert!(!service.prediction.state.has_private_state());
    assert_eq!(service.on_set_focus(None), None);
    service.prediction.failed_context = Some(5);
    assert_eq!(service.on_set_focus(None), Some(None));
    service.prediction_left(None);
    assert_eq!(service.prediction.failed_context, None);

    let mut service = committed();
    service.prediction.composition = Some(50);
    service.prediction.context = Some(5);
    service.mode.password_ctx_key = 5;
    assert_eq!(
        service.on_context_stack_changed(),
        Some(FinishStart::Ask { context: 5, accept: false })
    );
    assert_eq!(service.mode.password_ctx_key, 0);
    service.prediction_left(Some(false));
    assert_eq!(
        (service.prediction.failed_context, service.prediction.retry.wanted),
        (None, Some(50))
    );
    let mut service = committed();
    assert_eq!(service.begin_mode_toggle(), None);
    assert!(!service.prediction.state.has_private_state());
}

#[test]
fn a_moved_focus_ends_what_belongs_to_the_document() {
    let mut service = TextService::new();
    service.link.session = 9;
    service.commit.undo_armed = true;
    let stays = service.focus_moved(true);
    assert!(!stays.abandon && !stays.elsewhere && service.commit.undo_armed);
    service.partial_committing = true;
    let partial = service.focus_moved(false);
    assert!(!partial.abandon && partial.elsewhere && !service.commit.undo_armed);
    service.partial_committing = false;
    assert!(service.focus_moved(false).abandon);
    service.commit.undo_armed = true;
    assert_eq!(service.on_kill_thread_focus(), None);
    assert!(service.thread_focus_lost() && !service.commit.undo_armed);
    service.link.session = 0;
    assert!(!service.thread_focus_lost());
}

#[test]
fn a_target_needs_its_attribute() {
    let mut service = TextService::new();
    let span = Span { start: 1, len: 2 };
    assert_eq!(service.preedit_target(Some(span)), None);
    service.act.da_target_atom = 1;
    assert_eq!(service.preedit_target(Some(span)), Some(span));
    assert_eq!(service.preedit_target(None), None);
}

#[test]
fn a_started_composition_begins_its_lifecycle_at_the_next_entry() {
    let mut service = TextService::new();
    service.comp.composition_started_signal = true;
    assert_eq!(service.on_composition_terminated(None), TerminatedStep::Stale);
    assert!(!service.comp.composition_started_signal);
    assert_eq!(service.comp.composition_generation, 1);
    service.comp.composition_started_signal = true;
    assert_eq!(service.on_layout_change(true), None);
    assert_eq!(service.comp.composition_generation, 2);
    service.comp.composition_started_signal = true;
    assert!(!service.preedit_drawn(false));
    assert_eq!(service.comp.composition_generation, 3);
    service.comp.composition_started_signal = true;
    assert!(!service.commit_undo_matched(false, "r".into(), "t".into()));
    assert_eq!(service.comp.composition_generation, 4);
    service.comp.composition_started_signal = true;
    assert_eq!(
        service.reconvert_captured(ReconvertKind::Surface, "かな".into()),
        ReconvertStep::Surface { text: "かな".into() }
    );
    assert_eq!(service.comp.composition_generation, 5);
    assert_eq!(service.conv.reconvert_original, "かな");
}

#[test]
fn a_layout_is_queried_while_something_is_shown() {
    let mut service = TextService::new();
    service.layout.sink_ctx = Some(5);
    service.layout.gen = 9;
    assert_eq!(service.on_layout_change(false), None);
    service.conv.showing = true;
    assert_eq!(service.on_layout_change(false), Some(LayoutQuery { ctx: 5, gen: 9 }));
    assert_eq!(service.on_layout_change(true), None);
}

#[test]
fn an_abort_forgets_what_was_typed_once_the_host_cancelled() {
    let mut service = TextService::new();
    service.conv.composing = true;
    service.conv.live_text = "今日".into();
    service.conv.current_context = Some(5);
    service.conv.left_context = Some("左".into());
    service.conv.debounce.set(4);
    assert_eq!(service.begin_abort(), CancelStart::Cancel);
    assert_eq!(service.conv.debounce.take_stop(), 4);
    assert!(!service.finish_abort(false));
    assert!(service.conv.composing && service.conv.left_context.is_none());
    assert!(service.finish_abort(true));
    assert!(!service.conv.composing && service.conv.live_text.is_empty());
    assert_eq!(service.conv.current_context, None);
}
