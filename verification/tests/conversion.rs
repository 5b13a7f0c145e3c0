use nospacekey_tip::engine::Request;
use nospacekey_tip::preedit_apply::Span;
use nospacekey_tip::reading_monitor::CaretAnchor;
use nospacekey_tip::text_service::conversion::{
    ClausePreedit, ConversionState, LiveStep, SyncStep,
};
use nospacekey_tip::text_service::engine_link::{ClauseViewData, EngineLink};
use nospacekey_tip::text_service::engine_ops::LiveText;
use nospacekey_tip::text_service::feedback::{CommitMemory, LastCommit, UndoSkip};
use nospacekey_tip::text_service::layout::{
    LayoutQuery, LayoutState, PopupFacts, SinkStep, Unadvise,
};
use nospacekey_tip::text_service::lifecycle::TextService;
use nospacekey_tip::text_service::llm::{LlmOutcome, LlmPoll, LLM_TIMEOUT};
use nospacekey_tip::text_service::owners::Owners;
use nospacekey_tip::text_service::preedit::{CancelStart, DebounceStep};
use nospacekey_tip::text_service::reconvert::{
    latin_reconvert_reading, ReconvertKind, ReconvertStep, UndoStart,
};
use nospacekey_tip::text_service::timer::TimerSlot;

fn view() -> ClauseViewData {
    ClauseViewData {
        segments: vec!["今日".into(), "𠮷野".into(), "は".into()],
        selected: 1,
        candidates: vec!["𠮷野".into(), "吉野".into()],
        candidate_index: 0,
    }
}

#[test]
fn the_selected_clause_is_the_target_in_utf16_units() {
    let mut conv = ConversionState::new();
    assert_eq!(conv.run_clause_preedit(), None);
    conv.showing = true;
    assert_eq!(
        conv.apply_clause_view(view()),
        (vec!["𠮷野".to_string(), "吉野".to_string()], 0)
    );
    assert_eq!(
        conv.run_clause_preedit(),
        Some(ClausePreedit { text: "今日𠮷野は".into(), target: Span { start: 2, len: 3 } })
    );
    conv.clause_nav.as_mut().unwrap().selected = 7;
    assert_eq!(
        conv.run_clause_preedit(),
        Some(ClausePreedit { text: "今日𠮷野は".into(), target: Span { start: 6, len: 0 } })
    );
    conv.close_candidates();
    assert_eq!(conv.run_clause_preedit(), None);
}

#[test]
fn what_is_seen_is_what_a_commit_takes() {
    let mut conv = ConversionState::new();
    let pick = || Some("候補".to_string());
    assert_eq!(conv.sync_preedit_to_selection(pick()), SyncStep::Nothing);
    conv.showing = true;
    assert_eq!(conv.sync_preedit_to_selection(pick()), SyncStep::Draw("候補".into()));
    assert_eq!(conv.sync_preedit_to_selection(None), SyncStep::Nothing);
    let _ = conv.apply_clause_view(view());
    assert_eq!(conv.sync_preedit_to_selection(pick()), SyncStep::Clause);
    conv.sync_clause_to_selection(None, Some("吉野".into()));
    assert_eq!(conv.run_clause_preedit().unwrap().text, "今日吉野は");
    conv.sync_clause_to_selection(Some(view()), Some("吉野".into()));
    assert_eq!(conv.run_clause_preedit().unwrap().text, "今日𠮷野は");
    conv.sync_clause_to_selection(None, None);
    assert_eq!(conv.run_clause_preedit().unwrap().text, "今日𠮷野は");
}

#[test]
fn a_live_conversion_is_drawn_or_committed_in_part() {
    let mut conv = ConversionState::new();
    let live = |text: &str, committed: Option<&str>| {
        Some(LiveText {
            text: text.into(),
            reading: "よみ".into(),
            committed: committed.map(|c| c.to_string()),
        })
    };
    assert_eq!(conv.on_debounce_convert(None), LiveStep::Nothing);
    assert_eq!(conv.on_debounce_convert(live("", None)), LiveStep::Nothing);
    assert_eq!(conv.on_debounce_convert(live("今日", Some(""))), LiveStep::Draw("今日".into()));
    assert_eq!((conv.live_text.as_str(), conv.last_good.as_str()), ("今日", "今日"));
    assert_eq!(
        conv.on_debounce_convert(live("は", Some("今日"))),
        LiveStep::AutoCommit { prefix: "今日".into(), text: "は".into(), reading: "よみ".into() }
    );
    assert_eq!(conv.live_text, "今日");
}

#[test]
fn closing_the_candidates_shows_the_live_text_again() {
    let mut conv = ConversionState::new();
    assert_eq!(conv.restore_live_preedit(None), None);
    conv.last_reading = "きょう".into();
    assert_eq!(conv.restore_live_preedit(Some("".into())).as_deref(), Some("きょう"));
    conv.live_text = "今日".into();
    assert_eq!(conv.restore_live_preedit(None).as_deref(), Some("今日"));
    assert_eq!(conv.restore_live_preedit(Some("京".into())).as_deref(), Some("京"));
    assert_eq!((conv.live_text.as_str(), conv.last_good.as_str()), ("京", "京"));
    assert_eq!(conv.shown(), "京");
}

#[test]
fn the_monitor_shows_the_reading_of_what_is_composed() {
    let mut conv = ConversionState::new();
    conv.composing = true;
    conv.last_reading = "きょうは".into();
    conv.monitor_committed_reading = "あした".into();
    assert_eq!(
        conv.update_reading_monitor(true, true, 34).as_deref(),
        Some("あしたきょうは")
    );
    assert_eq!(conv.update_reading_monitor(true, false, 34).as_deref(), Some("きょうは"));
    assert_eq!(conv.update_reading_monitor(false, true, 34), None);
    conv.showing = true;
    assert_eq!(conv.update_reading_monitor(true, true, 34), None);
    conv.showing = false;
    conv.live_enabled = false;
    assert_eq!(conv.update_reading_monitor(true, true, 34), None);
}

fn asking() -> (ConversionState, EngineLink) {
    let mut conv = ConversionState::new();
    conv.llm_enabled = true;
    conv.composing = true;
    conv.live_text = "今日".into();
    conv.last_reading = "きょう".into();
    let mut link = EngineLink::new();
    link.client = true;
    link.session = 9;
    (conv, link)
}

#[test]
fn the_external_model_is_asked_with_a_lent_connection() {
    let refused = |change: fn(&mut ConversionState, &mut EngineLink)| {
        let (mut conv, mut link) = asking();
        change(&mut conv, &mut link);
        conv.start_llm_convert(&mut link, 5, 0).is_none()
    };
    assert!(refused(|c, _| c.llm_enabled = false));
    assert!(refused(|c, _| c.composing = false));
    assert!(refused(|c, _| c.awaiting_llm = true));
    assert!(refused(|c, _| c.live_text = String::new()));
    assert!(refused(|_, l| l.client = false));
    let (mut conv, mut link) = asking();
    conv.showing = true;
    conv.left_context = Some("左".into());
    let request = conv.start_llm_convert(&mut link, 5, 100).unwrap();
    assert_eq!((request.session, request.seq), (9, 1));
    assert_eq!(request.left_context.as_deref(), Some("左"));
    assert!(request.close_candidates && conv.awaiting_llm && !conv.showing && !link.client);
    conv.arm_llm_poll();
    assert_eq!(conv.llm_poll.wanted, Some(50));
    assert!(conv.llm_poll_timer_set(&mut link, 3).is_none());
    assert!(conv.awaiting_llm && conv.llm_poll.id == 3);
    assert_eq!(conv.poll_llm(4, true, 100), LlmPoll::Stale);
    assert_eq!(conv.poll_llm(3, false, 100 + LLM_TIMEOUT - 1), LlmPoll::Nothing);
    assert_eq!(conv.poll_llm(3, false, 100 + LLM_TIMEOUT), LlmPoll::TimedOut);
    assert_eq!(conv.poll_llm(3, true, 200), LlmPoll::Finished);
    link.pending_end_session = 4;
    let outcome = LlmOutcome { seq: 1, result: Some("京都".into()), client: true };
    let (redraw, end) = conv.on_llm_outcome(&mut link, outcome);
    assert_eq!((redraw.context, redraw.text.as_str()), (Some(5), "京都"));
    assert_eq!(end, Some(Request::EndSession { session: 4 }));
    assert!(link.client && !conv.awaiting_llm && conv.live_text == "京都");
}

#[test]
fn a_wait_that_cannot_be_looked_after_ends_at_once() {
    let (mut conv, mut link) = asking();
    let _ = conv.start_llm_convert(&mut link, 5, 0).unwrap();
    link.pipe_name = "p".into();
    conv.arm_llm_poll();
    let redraw = conv.llm_poll_timer_set(&mut link, 0).unwrap();
    assert_eq!((redraw.context, redraw.text.as_str()), (Some(5), "今日"));
    assert!(!conv.awaiting_llm && conv.llm_poll.wanted.is_none() && link.pipe_name.is_empty());
    assert_eq!(conv.llm_seq, 2);
}

#[test]
fn a_wait_for_the_external_model_can_be_given_up() {
    let (mut conv, mut link) = asking();
    let _ = conv.start_llm_convert(&mut link, 5, 0).unwrap();
    link.pipe_name = "p".into();
    let redraw = conv.abort_llm(&mut link);
    assert_eq!((redraw.context, redraw.text.as_str()), (Some(5), "今日"));
    assert!(!conv.awaiting_llm && link.pipe_name.is_empty());
    let late = LlmOutcome { seq: 1, result: Some("京都".into()), client: true };
    let (redraw, _) = conv.on_llm_outcome(&mut link, late);
    assert_eq!(redraw.text, "今日");
    let failed = LlmOutcome { seq: conv.llm_seq, result: None, client: false };
    let (redraw, end) = conv.on_llm_outcome(&mut link, failed);
    assert_eq!((redraw.text.as_str(), end), ("今日", None));
    assert!(!link.client);
    conv.pre_llm_text = String::new();
    assert_eq!(conv.abort_llm(&mut link).text, "きょう");
}

fn memory(text: &str) -> CommitMemory {
    let mut memory = CommitMemory::new();
    memory.undo_armed = true;
    memory.last_commit = Some(LastCommit {
        ts_ms: 0,
        reading: "きょう".into(),
        text: text.into(),
        source: "enter".into(),
        sel: -1,
        cand_n: 0,
    });
    memory
}

#[test]
fn a_commit_is_taken_back_where_its_text_still_stands() {
    let mut conv = ConversionState::new();
    let mut m = memory("今日");
    assert_eq!(conv.start_commit_undo(&mut m, false, false), UndoStart::PendingEnd);
    assert_eq!(
        conv.start_commit_undo(&mut m, true, true),
        UndoStart::Skip(UndoSkip::CompositionOpen)
    );
    assert!(m.undo_armed);
    assert_eq!(
        conv.start_commit_undo(&mut m, false, true),
        UndoStart::Match { reading: "きょう".into(), text: "今日".into() }
    );
    assert!(conv.commit_undo_matched(&mut m, true, "きょう".into(), "今日".into()));
    assert!(m.undo_armed && m.last_commit.is_none());
    assert_eq!(conv.reconvert_original, "今日");
    assert_eq!(
        conv.start_commit_undo(&mut m, false, true),
        UndoStart::Skip(UndoSkip::NoBuffer)
    );
    assert!(!m.undo_armed);
    assert_eq!(
        conv.start_commit_undo(&mut m, false, true),
        UndoStart::Skip(UndoSkip::NotArmed)
    );
    let mut m = memory(&"長".repeat(65));
    assert_eq!(
        conv.start_commit_undo(&mut m, false, true),
        UndoStart::Skip(UndoSkip::TooLong)
    );
    let mut m = memory("今日");
    m.feedback_enabled = true;
    assert!(!conv.commit_undo_matched(&mut m, false, "きょう".into(), "今日".into()));
    assert!(!m.undo_armed && m.last_commit.is_some());
}

#[test]
fn text_of_the_document_is_converted_and_put_back() {
    assert_eq!(latin_reconvert_reading("su-pa-"), "suーpaー");
    let mut conv = ConversionState::new();
    assert!(!conv.start_reconvert(false, false));
    assert!(!conv.start_reconvert(true, true));
    assert!(conv.start_reconvert(false, true));
    assert_eq!(
        conv.reconvert_captured(ReconvertKind::Nothing, "x".into()),
        ReconvertStep::Nothing
    );
    assert_eq!(
        conv.reconvert_captured(ReconvertKind::NonKana, "漢".into()),
        ReconvertStep::Nothing
    );
    assert_eq!(
        conv.reconvert_captured(ReconvertKind::Latin, "ka-do".into()),
        ReconvertStep::Insert { reading: "kaーdo".into() }
    );
    assert_eq!((conv.reconvert_original.as_str(), conv.reconvert_reading.as_str()), ("ka-do", ""));
    conv.reconvert_inserted(Some("かーど".into()));
    assert_eq!(conv.reconvert_reading, "かーど");
    conv.reconvert_inserted(None);
    assert_eq!(conv.reconvert_reading, "");
    assert_eq!(
        conv.reconvert_captured(ReconvertKind::Surface, "かな".into()),
        ReconvertStep::Surface { text: "かな".into() }
    );
    assert_eq!(conv.reconvert_reading, "かな");
    assert_eq!(conv.show_reconvert_candidates(5, &vec![]), None);
    assert!(!conv.showing);
    assert_eq!(
        conv.show_reconvert_candidates(5, &vec!["仮名".into(), "かな".into()]).as_deref(),
        Some("仮名")
    );
    assert!(conv.showing && conv.reconverting);
    assert!(!conv.start_reconvert(false, true));
    assert!(!conv.cancel_reconvert(false));
    assert_eq!(conv.reconvert_original, "かな");
    assert!(conv.cancel_reconvert(true));
    assert!(!conv.reconverting && !conv.showing && conv.reconvert_original.is_empty());
}

#[test]
fn a_replaced_timer_is_ignored() {
    let mut slot = TimerSlot::new();
    slot.arm(30);
    assert_eq!(slot.wanted, Some(30));
    slot.set(7);
    assert!(slot.is_pending());
    slot.arm(30);
    assert_eq!(slot.take_stop(), 7);
    slot.set(8);
    assert!(!slot.fire(7));
    assert!(slot.fire(8));
    assert!(!slot.is_pending());
}

#[test]
fn a_pause_draws_the_rest_before_it_converts() {
    let mut service = TextService::new();
    service.conv.arm_debounce(false);
    assert_eq!(service.conv.debounce.wanted, Some(30));
    service.conv.debounce.set(1);
    assert_eq!(service.begin_debounce_convert(2), DebounceStep::Stop);
    service.comp.partial_preedit_redraw_pending = true;
    assert_eq!(service.begin_debounce_convert(1), DebounceStep::Stop);
    assert!(!service.comp.partial_preedit_redraw_pending);
    service.conv.composing = true;
    service.conv.debounce.set(2);
    assert_eq!(service.begin_debounce_convert(2), DebounceStep::Stop);
    service.conv.current_context = Some(5);
    service.conv.debounce.set(3);
    assert_eq!(
        service.begin_debounce_convert(3),
        DebounceStep::Convert { ctx: 5, seq: 1 }
    );
    service.comp.partial_preedit_redraw_pending = true;
    service.conv.debounce.set(4);
    assert_eq!(service.begin_debounce_convert(4), DebounceStep::Redraw { ctx: 5 });
    assert_eq!(service.debounce_redrawn(5, false), DebounceStep::Stop);
    assert_eq!(service.comp.partial_preedit_redraw_retries, 1);
    assert_eq!(service.conv.debounce.wanted, Some(30));
    assert_eq!(service.debounce_redrawn(5, true), DebounceStep::Convert { ctx: 5, seq: 2 });
    service.conv.live_enabled = false;
    assert_eq!(service.debounce_redrawn(5, true), DebounceStep::Stop);
    assert_eq!(service.resume_preedit_after_prediction_cleanup(), Some(5));
    service.preedit_resumed(false);
    assert_eq!(service.comp.partial_preedit_redraw_retries, 2);
    service.comp.partial_preedit_redraw_pending = false;
    assert_eq!(service.resume_preedit_after_prediction_cleanup(), None);
    service.preedit_resumed(true);
    assert_eq!(service.conv.debounce.wanted, None);
}

#[test]
fn a_cancelled_composition_forgets_its_surroundings() {
    let mut service = TextService::new();
    assert_eq!(service.begin_cancel(), CancelStart::Cancel);
    service.comp.composition_end_pending = true;
    assert_eq!(service.begin_cancel(), CancelStart::CloseOnly);
    service.conv.left_context = Some("左".into());
    service.conv.monitor_committed_reading = "よみ".into();
    assert!(!service.do_cancel(false));
    assert_eq!(service.conv.left_context, None);
    assert!(service.conv.monitor_committed_reading.is_empty());
    assert!(service.do_cancel(true));
}

fn anchor(x: i32) -> CaretAnchor {
    CaretAnchor { x, y: 20, caret_top: Some(10) }
}

#[test]
fn reports_follow_the_focused_context() {
    let mut layout = LayoutState::new();
    assert_eq!(layout.set_layout_sink_context(None, 1), SinkStep::Same);
    assert_eq!(
        layout.set_layout_sink_context(Some(5), 1),
        SinkStep::Advise { old: None, ctx: 5 }
    );
    layout.layout_sink_advised(5, 0, 0);
    assert_eq!(layout.sink_ctx, None);
    layout.layout_sink_advised(5, 11, 0);
    assert_eq!(layout.sink_ctx, Some(5));
    assert_eq!(layout.set_layout_sink_context(Some(5), 2), SinkStep::Same);
    assert_eq!(layout.on_layout_change(false), None);
    assert_eq!(layout.on_layout_change(true), Some(LayoutQuery { ctx: 5, gen: 1 }));
    assert_eq!(layout.on_layout_change(true), None);
    layout.layout_query_refused();
    assert_eq!(layout.on_layout_change(true), Some(LayoutQuery { ctx: 5, gen: 1 }));
    let old = Unadvise { ctx: Some(5), layout_cookie: 11, edit_cookie: 0 };
    assert_eq!(
        layout.set_layout_sink_context(Some(6), 2),
        SinkStep::Advise { old: Some(old), ctx: 6 }
    );
    assert!(!layout.layout_refresh_apply(1));
    assert!(layout.layout_refresh_apply(2));
    layout.layout_sink_advised(6, 12, 13);
    assert_eq!(
        layout.set_layout_sink_context(None, 3),
        SinkStep::Left {
            old: Some(Unadvise { ctx: Some(6), layout_cookie: 12, edit_cookie: 13 })
        }
    );
}

#[test]
fn popups_go_to_the_last_known_caret() {
    let mut layout = LayoutState::new();
    let facts = PopupFacts {
        showing: true,
        has_items: true,
        monitor_enabled: true,
        composing: true,
        live_enabled: true,
        has_reading: true,
    };
    let plan = layout.relayout_popups_on_layout(None, facts);
    assert_eq!((plan.candidates, plan.monitor), (None, false));
    assert_eq!(
        layout.caret_point(None, 1, 2),
        CaretAnchor { x: 1, y: 2, caret_top: None }
    );
    let plan = layout.relayout_popups_on_layout(Some(anchor(3)), facts);
    assert_eq!(plan.candidates, Some(anchor(3)));
    assert_eq!(layout.caret_point(None, 1, 2), anchor(3));
    assert_eq!(layout.caret_point(Some(anchor(4)), 1, 2), anchor(4));
    let plan = layout.relayout_popups_on_layout(None, PopupFacts { showing: false, ..facts });
    assert_eq!((plan.candidates, plan.monitor), (None, true));
    layout.forget_anchor();
    assert_eq!(layout.last_valid_anchor, None);
}

#[test]
fn a_timer_finds_no_instance_that_is_gone() {
    let mut owners = Owners::new();
    owners.activated(1);
    owners.dropped(2);
    assert_eq!(owners.layout, Some(1));
    owners.deactivated(1);
    assert_eq!(owners.layout, None);
    owners.activated(1);
    owners.activated(2);
    owners.dropped(1);
    assert_eq!(owners.layout, Some(2));
    let mut service = TextService::new();
    service.conv.debounce.set(5);
    let left = service.drop_instance();
    assert_eq!(left.layout, None);
}

#[test]
fn a_clause_moves_only_where_the_engine_told_the_clauses() {
    let mut conv = ConversionState::new();
    conv.showing = true;
    assert_eq!(conv.move_clause(None), None);
    assert_eq!(conv.run_clause_preedit(), None);
    assert_eq!(
        conv.move_clause(Some(view())),
        Some((vec!["𠮷野".to_string(), "吉野".to_string()], 0))
    );
    assert!(conv.run_clause_preedit().is_some());
    conv.close_candidates();
    assert_eq!(conv.run_clause_preedit(), None);
}

#[test]
fn the_engine_is_asked_only_for_wanted_live_conversions() {
    let mut conv = ConversionState::new();
    assert_eq!(conv.begin_restore_live(false), Some(1));
    assert_eq!(conv.begin_restore_live(false), Some(2));
    assert_eq!(conv.begin_restore_live(true), None);
    conv.live_enabled = false;
    assert!(!conv.should_consult_live_engine(false));
    assert_eq!(conv.begin_restore_live(false), None);
    assert_eq!(conv.live_seq, 2);
}
