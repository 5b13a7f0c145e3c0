use nospacekey_tip::text_service::logging::{
    feedback_path, first_spawn_flags, log_enabled_from_env, log_line, rotate_log_if_larger_than,
    second_spawn_flags, LOG_ROTATE_BYTES,
};

#[test]
fn env_rules_enable_only_nonempty_non_zero() {
    assert!(!log_enabled_from_env(None));
    assert!(!log_enabled_from_env(Some("")));
    assert!(!log_enabled_from_env(Some("0")));
    assert!(log_enabled_from_env(Some("1")));
    assert!(log_enabled_from_env(Some("true")));
}

#[test]
fn write_to_appends_pid_prefixed_line_with_ts() {
    let content = log_line(4321, 1_700_000_000_123, "ev=unit hello");
    assert!(content.contains("ev=unit hello"), "got: {content}");
    assert!(content.starts_with("[pid "), "PID 前置が無い: {content}");
    let body = content.split("] ").nth(1).expect("] 区切りが無い");
    assert!(body.starts_with("ts="), "ts= が pid 直後に無い: {content}");
    let ts_val: &str = body["ts=".len()..].split(' ').next().unwrap();
    assert!(
        !ts_val.is_empty() && ts_val.bytes().all(|b| b.is_ascii_digit()),
        "ts 値が数字でない: {content}"
    );
    assert_eq!(content, "[pid 4321] ts=1700000000123 ev=unit hello\n");
}

#[test]
fn rotation_renames_oversized_log_to_dot1_once() {
    let logp = "nospacekey-tip.log";
    assert_eq!(rotate_log_if_larger_than(logp, Some(4), 4), None, "上限以下で回してはいけない");
    assert_eq!(
        rotate_log_if_larger_than(logp, Some(5), 4).as_deref(),
        Some("nospacekey-tip.log.1")
    );
    assert_eq!(rotate_log_if_larger_than(logp, None, 4), None);
    assert_eq!(LOG_ROTATE_BYTES, 8 * 1024 * 1024);
}

#[test]
fn reports_go_below_the_local_data_only() {
    assert_eq!(feedback_path(None), None);
    assert_eq!(feedback_path(Some("")), None);
    assert_eq!(
        feedback_path(Some("C:\\L")).as_deref(),
        Some("C:\\L\\nospacekey\\feedback.jsonl")
    );
}

#[test]
fn a_refused_start_is_tried_inside_the_job() {
    assert_eq!(first_spawn_flags(), 0x0900_0008);
    assert_eq!(second_spawn_flags(Some(5)), Some(0x0800_0008));
    assert_eq!(second_spawn_flags(Some(2)), None);
    assert_eq!(second_spawn_flags(None), None);
}
