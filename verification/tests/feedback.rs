use nospacekey_tip::text_service::feedback::{
    feedback_jsonl_line, json_escape, should_record_correction, undo_precheck, CommitMemory,
    FeedbackStep, LastCommit, UndoSkip,
};

#[test]
fn feedback_record_serializes_one_line() {
    let r = LastCommit {
        ts_ms: 1,
        reading: "にほんご".into(),
        text: "二本後".into(),
        source: "live".into(),
        sel: -1,
        cand_n: 0,
    };
    let line = feedback_jsonl_line(&r);
    assert!(!line.contains('\n'), "jsonl は 1 レコード 1 行: {line}");
    assert!(line.contains("\"reading\":\"にほんご\""), "got: {line}");
    assert!(line.contains("\"text\":\"二本後\""), "got: {line}");
    assert!(line.contains("\"sel\":-1"), "got: {line}");
    assert_eq!(
        line,
        r#"{"ts_ms":1,"reading":"にほんご","text":"二本後","source":"live","sel":-1,"cand_n":0}"#
    );
}

#[test]
fn feedback_record_escapes_json_special_chars() {
    let r = LastCommit {
        ts_ms: 2,
        reading: "a\"b\\c".into(),
        text: "x\ny".into(),
        source: "candidate".into(),
        sel: 3,
        cand_n: 9,
    };
    let line = feedback_jsonl_line(&r);
    assert!(!line.contains('\n'), "改行はエスケープされる: {line}");
    assert!(line.contains(r#""reading":"a\"b\\c""#), "got: {line}");
    assert!(line.contains(r#""text":"x\ny""#), "got: {line}");
    assert!(line.contains("\"sel\":3"), "got: {line}");
    assert!(line.contains("\"cand_n\":9"), "got: {line}");
    assert_eq!(json_escape("\u{01}"), "\\u0001");
}

#[test]
fn undo_precheck_gates_all_preconditions() {
    assert!(undo_precheck(true, false, true, 3).is_ok());
    assert_eq!(undo_precheck(false, false, true, 3), Err(UndoSkip::NotArmed));
    assert_eq!(undo_precheck(true, true, true, 3), Err(UndoSkip::CompositionOpen));
    assert_eq!(undo_precheck(true, false, false, 3), Err(UndoSkip::NoBuffer));
    assert_eq!(undo_precheck(true, false, true, 65), Err(UndoSkip::TooLong));
}

#[test]
fn record_correction_only_for_non_top_with_reading() {
    assert!(should_record_correction(1, "みこみっと"));
    assert!(should_record_correction(5, "わーるど"));
    assert!(!should_record_correction(0, "みこみっと"));
    assert!(!should_record_correction(1, ""));
}

#[test]
fn control_characters_and_large_numbers_are_written_out() {
    assert_eq!(json_escape("\r\t\u{1f}/"), "\\r\\t\\u001f/");
    let r = LastCommit {
        ts_ms: u64::MAX,
        reading: String::new(),
        text: String::new(),
        source: String::new(),
        sel: i32::MIN,
        cand_n: 10,
    };
    assert_eq!(
        feedback_jsonl_line(&r),
        format!(
            "{{\"ts_ms\":{},\"reading\":\"\",\"text\":\"\",\"source\":\"\",\"sel\":{},\"cand_n\":10}}",
            u64::MAX,
            i32::MIN
        )
    );
}

#[test]
fn a_report_uses_the_last_commit_up() {
    let commit = || LastCommit {
        ts_ms: 5,
        reading: "よ".into(),
        text: "夜".into(),
        source: "live".into(),
        sel: -1,
        cand_n: 0,
    };
    let mut memory = CommitMemory::new();
    memory.last_commit = Some(commit());
    assert_eq!(memory.record_feedback(), FeedbackStep::Disabled);
    memory.feedback_enabled = true;
    assert_eq!(
        memory.record_feedback(),
        FeedbackStep::Append(
            r#"{"ts_ms":5,"reading":"よ","text":"夜","source":"live","sel":-1,"cand_n":0}"#.into()
        )
    );
    assert_eq!(memory.record_feedback(), FeedbackStep::NoLastCommit);
    memory.last_commit = Some(commit());
    memory.undo_armed = true;
    memory.disarm_undo();
    assert!(!memory.undo_armed && memory.last_commit.is_some());
    memory.feedback_enabled = false;
    memory.disarm_undo();
    assert!(memory.last_commit.is_none());
}
