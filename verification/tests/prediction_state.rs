use nospacekey_tip::prediction_state::{
    CommitSource, Invalidation, PredictionAnchor, PredictionRequest, PredictionState, Timestamp,
};


#[test]
fn explicit_full_commit_requests_after_300ms_debounce() {
    let mut state = PredictionState::default();
    let anchor = PredictionAnchor::new(7);

    state.on_commit(
        CommitSource::Enter,
        "今日はとても晴れです",
        anchor,
        Timestamp::from_millis(100),
    );

    assert_eq!(state.poll(Timestamp::from_millis(399)), None);
    assert_eq!(
        state.poll(Timestamp::from_millis(400)),
        Some(PredictionRequest {
            seq: 1,
            context_before: "今日はとても晴れです".into(),
            anchor,
            deadline_at: Timestamp::from_millis(800),
        })
    );
}

#[test]
fn only_user_initiated_full_commits_start_prediction() {
    assert!(CommitSource::Enter.starts_prediction());
    assert!(CommitSource::Candidate.starts_prediction());
    assert!(CommitSource::Clause.starts_prediction());
    assert!(CommitSource::AcceptedPrediction.starts_prediction());
    assert!(!CommitSource::LiveAuto.starts_prediction());
    assert!(!CommitSource::Partial.starts_prediction());
    assert!(!CommitSource::ImplicitSettle.starts_prediction());
}

#[test]
fn context_shorter_than_eight_characters_does_not_request() {
    let mut state = PredictionState::default();
    state.on_commit(
        CommitSource::Enter,
        "短い文章です",
        PredictionAnchor::new(1),
        Timestamp::from_millis(0),
    );

    assert_eq!(state.poll(Timestamp::from_millis(300)), None);
}

#[test]
fn request_keeps_only_the_last_256_unicode_characters() {
    let mut state = PredictionState::default();
    let committed = format!("{}{}", "前".repeat(10), "後".repeat(256));
    state.on_commit(
        CommitSource::Enter,
        &committed,
        PredictionAnchor::new(1),
        Timestamp::from_millis(0),
    );

    let request = state.poll(Timestamp::from_millis(300)).unwrap();
    assert_eq!(request.context_before, "後".repeat(256));
}

#[test]
fn typing_after_request_makes_the_result_stale() {
    let mut state = PredictionState::default();
    state.on_commit(
        CommitSource::Enter,
        "十分に長い確定済み文脈です",
        PredictionAnchor::new(2),
        Timestamp::from_millis(0),
    );
    let request = state.poll(Timestamp::from_millis(300)).unwrap();

    state.invalidate(Invalidation::Input);

    assert_eq!(
        state.on_result(
            request.seq,
            "続きを入力します。",
            Timestamp::from_millis(350)
        ),
        None
    );
    assert_eq!(state.ghost(), None);
}

#[test]
fn fresh_result_is_anchored_and_limited_to_16_characters() {
    let mut state = PredictionState::default();
    let anchor = PredictionAnchor::new(9);
    state.on_commit(
        CommitSource::Enter,
        "十分に長い確定済み文脈です",
        anchor,
        Timestamp::from_millis(0),
    );
    let request = state.poll(Timestamp::from_millis(300)).unwrap();

    let ghost = state
        .on_result(
            request.seq,
            "1234567890123456後続",
            Timestamp::from_millis(700),
        )
        .unwrap();

    assert_eq!(ghost.text, "1234567890123456");
    assert_eq!(ghost.anchor, anchor);
    assert_eq!(state.ghost(), Some(&ghost));
}

#[test]
fn every_editor_transition_clears_a_visible_ghost() {
    for reason in [
        Invalidation::Input,
        Invalidation::CaretMoved,
        Invalidation::SelectionChanged,
        Invalidation::FocusChanged,
        Invalidation::ModeChanged,
        Invalidation::Disabled,
    ] {
        let mut state = PredictionState::default();
        state.on_commit(
            CommitSource::Enter,
            "十分に長い確定済み文脈です",
            PredictionAnchor::new(3),
            Timestamp::from_millis(0),
        );
        let request = state.poll(Timestamp::from_millis(300)).unwrap();
        state
            .on_result(
                request.seq,
                "表示する候補です。",
                Timestamp::from_millis(350),
            )
            .unwrap();

        state.invalidate(reason);

        assert_eq!(state.ghost(), None, "reason={reason:?}");
    }
}

#[test]
fn accepting_a_ghost_appends_it_and_rearms_prediction() {
    let mut state = PredictionState::default();
    let anchor = PredictionAnchor::new(4);
    state.on_commit(
        CommitSource::Enter,
        "十分に長い確定済み文脈です",
        anchor,
        Timestamp::from_millis(0),
    );
    let first = state.poll(Timestamp::from_millis(300)).unwrap();
    state
        .on_result(first.seq, "確認します。", Timestamp::from_millis(350))
        .unwrap();

    let accepted = state.accept_ghost(anchor, Timestamp::from_millis(400));

    assert_eq!(accepted.as_deref(), Some("確認します。"));
    assert_eq!(state.ghost(), None);
    assert_eq!(state.poll(Timestamp::from_millis(699)), None);
    let second = state.poll(Timestamp::from_millis(700)).unwrap();
    assert_eq!(second.seq, 2);
    assert!(second.context_before.ends_with("確認します。"));
}

#[test]
fn location_or_mode_changes_clear_the_private_context_ring() {
    for reason in [
        Invalidation::CaretMoved,
        Invalidation::SelectionChanged,
        Invalidation::FocusChanged,
        Invalidation::ModeChanged,
        Invalidation::Disabled,
    ] {
        let mut state = PredictionState::default();
        state.on_commit(
            CommitSource::Enter,
            "十分に長い確定済み文脈です",
            PredictionAnchor::new(1),
            Timestamp::from_millis(0),
        );
        state.invalidate(reason);
        state.on_commit(
            CommitSource::Enter,
            "短い文章です",
            PredictionAnchor::new(2),
            Timestamp::from_millis(100),
        );

        assert_eq!(
            state.poll(Timestamp::from_millis(400)),
            None,
            "reason={reason:?}"
        );
    }
}

#[test]
fn a_new_explicit_commit_invalidates_the_previous_request() {
    let mut state = PredictionState::default();
    let anchor = PredictionAnchor::new(1);
    state.on_commit(
        CommitSource::Enter,
        "最初に確定した十分長い文章です",
        anchor,
        Timestamp::from_millis(0),
    );
    let old = state.poll(Timestamp::from_millis(300)).unwrap();

    state.on_commit(
        CommitSource::Enter,
        "次に確定した文章です",
        PredictionAnchor::new(2),
        Timestamp::from_millis(350),
    );

    assert_eq!(
        state.on_result(old.seq, "古い候補です。", Timestamp::from_millis(360)),
        None
    );
    assert_eq!(state.ghost(), None);
}

#[test]
fn automatic_or_partial_commits_only_invalidate_and_never_rearm() {
    for source in [
        CommitSource::LiveAuto,
        CommitSource::Partial,
        CommitSource::ImplicitSettle,
    ] {
        let mut state = PredictionState::default();
        state.on_commit(
            CommitSource::Enter,
            "最初に確定した十分長い文章です",
            PredictionAnchor::new(1),
            Timestamp::from_millis(0),
        );
        let old = state.poll(Timestamp::from_millis(300)).unwrap();

        state.on_commit(
            source,
            "自動的に確定された文章です",
            PredictionAnchor::new(2),
            Timestamp::from_millis(350),
        );

        assert_eq!(
            state.on_result(old.seq, "古い候補です。", Timestamp::from_millis(360)),
            None,
            "source={source:?}"
        );
        assert_eq!(state.poll(Timestamp::from_millis(650)), None);
    }
}

#[test]
fn result_shorter_than_two_characters_is_not_shown() {
    let mut state = PredictionState::default();
    state.on_commit(
        CommitSource::Enter,
        "十分に長い確定済み文脈です",
        PredictionAnchor::new(1),
        Timestamp::from_millis(0),
    );
    let request = state.poll(Timestamp::from_millis(300)).unwrap();

    assert_eq!(
        state.on_result(request.seq, "。", Timestamp::from_millis(350)),
        None
    );
    assert_eq!(state.ghost(), None);
}

#[test]
fn result_after_the_400ms_deadline_is_not_shown() {
    let mut state = PredictionState::default();
    state.on_commit(
        CommitSource::Enter,
        "十分に長い確定済み文脈です",
        PredictionAnchor::new(1),
        Timestamp::from_millis(0),
    );
    let request = state.poll(Timestamp::from_millis(300)).unwrap();

    assert_eq!(
        state.on_result(
            request.seq,
            "期限切れ候補です。",
            Timestamp::from_millis(701)
        ),
        None
    );
    assert_eq!(state.ghost(), None);
}

#[test]
fn dismiss_suppresses_only_the_same_context_until_it_changes() {
    let mut state = PredictionState::default();
    state.on_commit(
        CommitSource::Enter,
        "十分に長い確定済み文脈です",
        PredictionAnchor::new(1),
        Timestamp::from_millis(0),
    );
    let request = state.poll(Timestamp::from_millis(300)).unwrap();
    state
        .on_result(
            request.seq,
            "表示中の候補です。",
            Timestamp::from_millis(350),
        )
        .unwrap();

    assert!(state.dismiss_ghost());
    assert!(state.is_current_context_suppressed());
    assert_eq!(state.ghost(), None);

    state.on_commit(
        CommitSource::Enter,
        "新しく確定した文章です",
        PredictionAnchor::new(2),
        Timestamp::from_millis(400),
    );
    assert!(!state.is_current_context_suppressed());
    assert!(state.poll(Timestamp::from_millis(700)).is_some());
}

#[test]
fn activity_covers_debounce_pending_and_visible_ghost() {
    let mut state = PredictionState::default();
    assert!(!state.has_activity());
    state.on_commit(
        CommitSource::Enter,
        "十分に長い確定済み文脈です",
        PredictionAnchor::new(1),
        Timestamp::from_millis(0),
    );
    assert!(state.has_activity());
    let request = state.poll(Timestamp::from_millis(300)).unwrap();
    assert!(state.has_activity());
    state
        .on_result(
            request.seq,
            "表示する候補です。",
            Timestamp::from_millis(350),
        )
        .unwrap();
    assert!(state.has_activity());
    state.invalidate(Invalidation::SelectionChanged);
    assert!(!state.has_activity());
}

#[test]
fn expired_matching_result_clears_pending_activity() {
    let mut state = PredictionState::default();
    state.on_commit(
        CommitSource::Enter,
        "十分に長い確定済み文脈です",
        PredictionAnchor::new(1),
        Timestamp::from_millis(0),
    );
    let request = state.poll(Timestamp::from_millis(300)).unwrap();
    assert!(state
        .on_result(
            request.seq,
            "期限切れの候補です。",
            Timestamp::from_millis(701)
        )
        .is_none());
    assert!(!state.has_activity());
    assert!(state.has_private_state());
    state.invalidate(Invalidation::FocusChanged);
    assert!(!state.has_private_state());
}

#[test]
fn missing_result_expires_and_late_reply_stays_stale() {
    let mut state = PredictionState::default();
    state.on_commit(
        CommitSource::Enter,
        "明日の予定を確認します",
        PredictionAnchor::new(1),
        Timestamp::from_millis(0),
    );
    let request = state.poll(Timestamp::from_millis(300)).unwrap();
    assert!(!state.expire_pending(Timestamp::from_millis(700)));
    assert!(state.expire_pending(Timestamp::from_millis(701)));
    assert_eq!(
        state.on_result(request.seq, "遅い応答です", Timestamp::from_millis(702)),
        None
    );
}
