use nospacekey_tip::engine::{
    DrainOutcome, InsertStyle, IoFault, Reply, Request, Response, PENDING_MAX,
};
use nospacekey_tip::text_service::engine_link::{
    Backoff, ClauseViewData, EngineLink, PowerPoll, PrepareStart, ReloadStep, StartStep,
};
use nospacekey_tip::text_service::engine_ops::{CommittedText, EndStart, LiveText};
use nospacekey_tip::text_service::engine_start::{EnsureAction, EnsureEngine, EnsureEvent};

const PROTO: u32 = 4;

fn linked() -> EngineLink {
    let mut link = EngineLink::new();
    link.client = true;
    link.session = 9;
    link
}

fn error() -> Reply {
    Ok(Response::Error { message: "no".into() })
}

fn session(proto: Option<u32>) -> Reply {
    Ok(Response::Session { session: 7, proto, boot: None })
}

#[test]
fn a_new_connection_is_kept_or_replaced_once() {
    let mut link = EngineLink::new();
    link.reload_retry_count = 3;
    assert_eq!(link.start_and_store(session(Some(PROTO)), PROTO), StartStep::Stored);
    assert_eq!((link.client, link.session, link.reload_retry_count), (true, 7, 0));

    let mut link = EngineLink::new();
    link.spawn_attempted = true;
    assert_eq!(link.start_and_store(session(Some(3)), PROTO), StartStep::Replace);
    assert!(!link.client && !link.spawn_attempted && link.handshake_shutdown_attempted);
    assert_eq!(link.start_and_store(session(Some(3)), PROTO), StartStep::Stored);
    assert!(link.client && link.handshake_shutdown_attempted);
    assert_eq!(link.start_and_store(session(Some(PROTO)), PROTO), StartStep::Stored);
    assert!(!link.handshake_shutdown_attempted);
    assert_eq!(link.start_and_store(error(), PROTO), StartStep::Failed);
    assert!(!link.client);
}

#[test]
fn settings_are_told_a_busy_engine_five_times() {
    let mut link = linked();
    let busy = || Ok(Response::Error { message: "reload busy: warming up".into() });
    for n in 1..=5 {
        assert_eq!(link.engine_reload_config(busy()), ReloadStep::Retry);
        assert_eq!(link.take_stop_timer(), if n == 1 { 0 } else { 99 + n });
        link.reload_retry_timer_set(100 + n);
        assert!(!link.fire_reload_retry(1));
    }
    assert_eq!(link.engine_reload_config(busy()), ReloadStep::GiveUp);
    assert!(link.fire_reload_retry(105));
    assert_eq!(link.engine_reload_config(Ok(Response::Done)), ReloadStep::Applied);
    assert_eq!(link.reload_retry_count, 0);
    assert_eq!(link.engine_reload_config(error()), ReloadStep::Declined);
    assert_eq!(
        link.engine_reload_config(Ok(Response::Error { message: "reload bus".into() })),
        ReloadStep::Declined
    );
    assert!(link.client);
    link.reload_retry_timer_set(44);
    assert_eq!(link.engine_reload_config(Ok(Response::Pong)), ReloadStep::Dropped);
    assert_eq!((link.client, link.session, link.take_stop_timer()), (false, 0, 44));
    assert_eq!(linked().engine_reload_config(Err(IoFault::TimedOut)), ReloadStep::Dropped);
}

#[test]
fn a_wake_up_drops_an_idle_connection() {
    let mut link = linked();
    assert_eq!(link.poll_power_events(None, false), PowerPoll::Nothing);
    assert_eq!(link.poll_power_events(Some(0), false), PowerPoll::Nothing);
    assert_eq!(link.poll_power_events(Some(1), true), PowerPoll::KeepConnection);
    assert!(link.client && link.resume_convert_pending && link.last_resume_gen == 1);
    assert_eq!(link.poll_power_events(Some(1), false), PowerPoll::Nothing);
    assert_eq!(link.poll_power_events(Some(2), false), PowerPoll::DropConnection);
    assert!(!link.client && link.resume_convert_pending);
}

#[test]
fn the_pipe_is_named_once() {
    let mut link = EngineLink::new();
    assert_eq!(link.engine_pipe_name(|| "p".to_string()), "p");
    assert_eq!(link.engine_pipe_name(|| panic!("named again")), "p");
}

#[test]
fn an_engine_is_started_early_only_where_it_helps() {
    let mut link = EngineLink::new();
    assert!(link.prespawn_engine(false, true));
    assert!(!link.prespawn_engine(true, true));
    assert!(!link.prespawn_engine(false, false));
    link.prespawned(true);
    assert!(link.prespawn_engine(false, true));
    link.prespawned(false);
    assert!(!link.prespawn_engine(false, true));
    assert!(!linked().prespawn_engine(false, true));
}

#[test]
fn a_missing_session_is_opened_and_told_to_be_new() {
    let mut link = linked();
    assert!(!link.wants_session());
    link.session = 0;
    assert!(link.wants_session());
    assert!(link.ensure_session(Some(session(None))));
    assert_eq!(link.session, 7);
    link.session = 0;
    assert!(!link.ensure_session(None));
    assert!(link.client);
    assert!(!link.ensure_session(Some(error())));
    assert!(!link.client);
    assert!(!link.wants_session());
}

#[test]
fn an_owed_answer_is_read_before_the_next_request() {
    let mut link = linked();
    assert_eq!(link.prepare_send(10), PrepareStart::Known(DrainOutcome::Proceed));
    assert_eq!(link.engine_insert(Err(IoFault::TimedOut), 10), None);
    assert_eq!(link.engine_live_convert(Err(IoFault::TimedOut), 50), None);
    assert_eq!((link.pending_since, link.session), (Some(10), 9));
    assert_eq!(link.prepare_send(20), PrepareStart::Drain);
    assert_eq!(link.finish_drain(Err(IoFault::TimedOut)), DrainOutcome::StillPending);
    assert_eq!(link.pending_since, Some(10));
    assert_eq!(link.finish_drain(Ok(Some(Response::Pong))), DrainOutcome::Proceed);
    assert_eq!(link.pending_since, None);
    link.pending_since = Some(10);
    assert_eq!(link.finish_drain(Ok(None)), DrainOutcome::Proceed);
    link.pending_since = Some(10);
    assert_eq!(
        link.prepare_send(10 + PENDING_MAX),
        PrepareStart::Known(DrainOutcome::Dropped)
    );
    assert!(!link.client && link.pending_since.is_none());
    link.pending_since = Some(10);
    assert_eq!(link.prepare_send(11), PrepareStart::Known(DrainOutcome::Proceed));
    assert_eq!(link.pending_since, None);
}

#[test]
fn a_commit_behind_the_back_ends_the_connection() {
    let live = |committed: Option<&str>| Response::LiveResult {
        seq: 1,
        text: "t".into(),
        reading: "r".into(),
        committed: committed.map(|c| c.to_string()),
    };
    let mut link = linked();
    link.pending_since = Some(1);
    assert_eq!(link.finish_drain(Ok(Some(live(Some(""))))), DrainOutcome::Proceed);
    assert!(link.client);
    assert_eq!(link.finish_drain(Ok(Some(live(Some("今日"))))), DrainOutcome::Dropped);
    assert!(!link.client);
    let mut link = linked();
    assert_eq!(link.finish_drain(Err(IoFault::BrokenPipe)), DrainOutcome::Dropped);
    assert!(!link.client);
    let mut link = linked();
    assert!(link.prepare_send_or_drop(DrainOutcome::Proceed));
    assert!(!link.prepare_send_or_drop(DrainOutcome::Dropped));
    assert!(link.client);
    assert!(!link.prepare_send_or_drop(DrainOutcome::StillPending));
    assert!(!link.client);
}

#[test]
fn requests_carry_the_session() {
    let mut link = linked();
    link.resume_convert_pending = true;
    let left = || Some("左".to_string());
    assert_eq!(
        link.insert_request("a", InsertStyle::Kana),
        Some(Request::Insert { session: 9, text: "a".into(), style: None })
    );
    assert_eq!(
        link.insert_request("A", InsertStyle::Direct),
        Some(Request::Insert { session: 9, text: "A".into(), style: Some("direct".into()) })
    );
    assert_eq!(
        link.typo_convert_request(left()),
        Some(Request::TypoConvert { session: 9, left_context: left() })
    );
    assert!(link.resume_convert_pending);
    assert_eq!(
        link.convert_request(left()),
        Some(Request::Convert { session: 9, left_context: left() })
    );
    assert!(!link.resume_convert_pending);
    assert_eq!(
        link.reconvert_request("かな", None),
        Some(Request::Reconvert { session: 9, surface: "かな".into(), left_context: None })
    );
    assert_eq!(link.commit_request(2), Some(Request::Commit { session: 9, index: 2 }));
    assert_eq!(link.commit_clauses_request(), Some(Request::CommitClauses { session: 9 }));
    assert_eq!(
        link.move_clause_request(-1, 3, left()),
        Some(Request::MoveClause { session: 9, offset: -1, base_index: 3, left_context: left() })
    );
    assert_eq!(
        link.select_clause_request(1),
        Some(Request::SelectClauseCandidate { session: 9, index: 1 })
    );
    assert_eq!(
        link.live_convert_request(DrainOutcome::Proceed, 5, true, None),
        Some(Request::LiveConvert { session: 9, seq: 5, left_context: None, auto_commit: true })
    );
    assert_eq!(link.live_convert_request(DrainOutcome::StillPending, 5, true, None), None);
    assert_eq!(link.backspace_request(), Some(Request::Backspace { session: 9 }));
    assert_eq!(
        link.record_correction_request(DrainOutcome::Proceed, "よみ", "読み"),
        Some(Request::RecordCorrection { reading: "よみ".into(), surface: "読み".into() })
    );
    assert_eq!(link.record_correction_request(DrainOutcome::Dropped, "よみ", "読み"), None);
    let mut none = EngineLink::new();
    assert_eq!(none.insert_request("a", InsertStyle::Kana), None);
    assert_eq!(none.convert_request(None), None);
    assert_eq!(none.backspace_request(), None);
}

#[test]
fn answers_that_fit_are_used_and_others_end_the_connection() {
    let reading = || Ok(Response::Reading { reading: "よみ".into() });
    let candidates = || Ok(Response::Candidates { candidates: vec!["読み".into()] });
    let committed = || Ok(Response::Committed { text: "今日".into(), reading: "は".into() });
    let view = || {
        Ok(Response::ClauseView {
            segments: vec!["今日".into(), "は".into()],
            selected: 1,
            candidates: vec!["は".into()],
            candidate_index: 0,
        })
    };
    let mut link = linked();
    assert_eq!(link.engine_insert(reading(), 0).as_deref(), Some("よみ"));
    assert_eq!(link.engine_backspace(reading()).as_deref(), Some("よみ"));
    assert_eq!(link.engine_convert(candidates()), Some(vec!["読み".to_string()]));
    assert_eq!(link.engine_typo_convert(candidates()), Some(vec!["読み".to_string()]));
    assert_eq!(link.engine_reconvert_surface(candidates()), Some(vec!["読み".to_string()]));
    let text = Some(CommittedText { text: "今日".into(), reading: "は".into() });
    assert_eq!(link.engine_commit(committed()), text);
    assert_eq!(link.engine_commit_clauses(committed()), text);
    let clauses = Some(ClauseViewData {
        segments: vec!["今日".into(), "は".into()],
        selected: 1,
        candidates: vec!["は".into()],
        candidate_index: 0,
    });
    assert_eq!(link.engine_move_clause(view()), clauses);
    assert_eq!(link.engine_select_clause_candidate(view()), clauses);
    assert_eq!(
        link.engine_live_convert(
            Ok(Response::LiveResult {
                seq: 1,
                text: "今日は".into(),
                reading: "きょうは".into(),
                committed: None,
            }),
            0
        ),
        Some(LiveText { text: "今日は".into(), reading: "きょうは".into(), committed: None })
    );
    // An engine that declines a commit or a clause keeps its connection.
    assert_eq!(link.engine_commit(error()), None);
    assert_eq!(link.engine_commit_clauses(error()), None);
    assert_eq!(link.engine_move_clause(error()), None);
    assert_eq!(link.engine_select_clause_candidate(error()), None);
    link.engine_record_correction(error());
    assert!(link.client);
    for unfit in [error(), Err(IoFault::TimedOut)] {
        let mut link = linked();
        assert_eq!(link.engine_convert(unfit.clone()), None);
        assert!(!link.client);
        let mut link = linked();
        assert_eq!(link.engine_backspace(unfit), None);
        assert!(!link.client);
    }
    let mut link = linked();
    assert_eq!(link.engine_commit(Err(IoFault::TimedOut)), None);
    assert!(!link.client);
    let mut link = linked();
    link.engine_record_correction(Err(IoFault::BrokenPipe));
    assert!(!link.client);
    let mut link = linked();
    assert_eq!(link.engine_live_convert(error(), 0), None);
    assert!(!link.client);
}

#[test]
fn a_session_ends_or_its_end_waits_for_the_connection() {
    let mut link = EngineLink::new();
    assert_eq!(link.begin_end_session(), EndStart::Nothing);
    link.session = 5;
    assert_eq!(link.begin_end_session(), EndStart::Parked);
    assert_eq!((link.session, link.pending_end_session), (0, 5));
    link.client = true;
    assert_eq!(link.flush_pending_end_session(), Some(Request::EndSession { session: 5 }));
    assert_eq!(link.flush_pending_end_session(), None);
    link.flushed_end_session(Ok(Response::Done));
    assert!(link.client);
    link.flushed_end_session(error());
    assert!(!link.client);

    let mut link = linked();
    assert_eq!(link.begin_end_session(), EndStart::Prepare);
    assert_eq!(
        link.end_session_request(DrainOutcome::Proceed),
        Some(Request::EndSession { session: 9 })
    );
    link.engine_end_session(Ok(Response::Done));
    assert_eq!((link.client, link.session), (true, 0));
    link.session = 9;
    link.engine_end_session(error());
    assert!(!link.client);
    let mut link = linked();
    assert_eq!(link.end_session_request(DrainOutcome::StillPending), None);
    assert_eq!((link.client, link.session), (false, 0));
}

#[test]
fn a_search_tries_to_connect_before_it_starts_an_engine() {
    let mut link = EngineLink::new();
    let (mut search, action) = EnsureEngine::begin(&link, true, true);
    assert_eq!(action, EnsureAction::Connect { within_ms: 200 });
    assert_eq!(
        search.step(&mut link, EnsureEvent::NotConnected),
        EnsureAction::LockAndConnect { within_ms: 50 }
    );
    assert!(link.spawn_attempted);
    assert_eq!(search.step(&mut link, EnsureEvent::NotConnected), EnsureAction::Spawn);
    assert_eq!(
        search.step(&mut link, EnsureEvent::Spawned),
        EnsureAction::Connect { within_ms: 400 }
    );
    assert!(link.child);
    assert_eq!(search.step(&mut link, EnsureEvent::Connected), EnsureAction::StartSession);
    link.client = true;
    assert_eq!(
        search.step(&mut link, EnsureEvent::SessionTried),
        EnsureAction::Finish { backoff: Backoff::Reset }
    );
    let (_, action) = EnsureEngine::begin(&link, true, true);
    assert_eq!(action, EnsureAction::Finish { backoff: Backoff::Keep });
}

#[test]
fn a_failed_search_is_held_back() {
    let mut link = EngineLink::new();
    link.spawn_attempted = true;
    let (mut search, _) = EnsureEngine::begin(&link, true, true);
    assert_eq!(
        search.step(&mut link, EnsureEvent::NotConnected),
        EnsureAction::Finish { backoff: Backoff::ConnectFailure }
    );
    let (mut search, _) = EnsureEngine::begin(&link, true, true);
    assert_eq!(search.step(&mut link, EnsureEvent::Connected), EnsureAction::StartSession);
    assert_eq!(
        search.step(&mut link, EnsureEvent::SessionTried),
        EnsureAction::Finish { backoff: Backoff::SessionFailure }
    );
    let (mut probe, action) = EnsureEngine::begin(&link, false, true);
    assert_eq!(action, EnsureAction::Connect { within_ms: 0 });
    assert_eq!(
        probe.step(&mut link, EnsureEvent::NotConnected),
        EnsureAction::Finish { backoff: Backoff::Keep }
    );
    let (mut probe, _) = EnsureEngine::begin(&link, false, true);
    assert_eq!(probe.step(&mut link, EnsureEvent::Connected), EnsureAction::StartSession);
    assert_eq!(
        probe.step(&mut link, EnsureEvent::SessionTried),
        EnsureAction::Finish { backoff: Backoff::SessionFailure }
    );
    let (_, action) = EnsureEngine::begin(&link, false, false);
    assert_eq!(action, EnsureAction::Finish { backoff: Backoff::Keep });
}
