use nospacekey_tip::engine::{
    build_reload_config, decide_handshake, drained_needs_drop, end_session_ack_accepted,
    engine_failure_event, llm_effective_enabled, plan_start_session, response_kind,
    resume_poll_action, should_log_slow, should_prespawn, EngineSettings, HandshakeAction, IoFault,
    LlmSettings, ReloadConfig, Response, IPC_TIMEOUT_CONVERT, IPC_TIMEOUT_FAST, IPC_TIMEOUT_LIVE,
};
use std::time::Duration;

const PROTO_VERSION: u32 = 4;

#[test]
fn prespawn_decision_spawns_only_when_no_client_and_not_attempted() {
    assert!(should_prespawn(false, false, true));
    assert!(!should_prespawn(true, false, true));
    assert!(!should_prespawn(false, true, true));
    assert!(!should_prespawn(false, false, false));
}

fn default_settings() -> EngineSettings {
    EngineSettings {
        llm: LlmSettings {
            enabled: false,
            endpoint: String::new(),
            model: String::new(),
            prompt: String::new(),
            timeout_ms: 8000,
        },
        zenzai_enabled: true,
        zenzai_weight_path: String::new(),
        zenzai_inference_limit: 1,
        inline_prediction_enabled: false,
        learning_enabled: true,
        typo_learn: true,
    }
}

#[test]
fn frozen_llm_sends_empty_fields_even_when_enabled() {
    let mut s = default_settings();
    s.llm.enabled = true;
    s.llm.endpoint = "https://e".into();
    s.llm.model = "gpt-4o-mini".into();
    s.llm.prompt = "p".into();
    s.llm.timeout_ms = 12000;
    s.zenzai_enabled = true;
    s.zenzai_weight_path = "C:/w.gguf".into();
    let req = build_reload_config(&s, true, Some("sk-x"), false);
    assert_eq!(
        req,
        ReloadConfig {
            llm_enabled: false,
            llm_api_key: "".into(),
            llm_endpoint: "".into(),
            llm_model: "".into(),
            llm_prompt: "".into(),
            llm_timeout_ms: 12000,
            zenzai_enabled: true,
            zenzai_weight: "C:/w.gguf".into(),
            inline_prediction_enabled: false,
            learning_enabled: true,
            typo_learn_enabled: true,
            zenzai_inference_limit: Some(1),
        }
    );
    assert!(!llm_effective_enabled(&s, true));
}

#[test]
fn a_model_that_is_not_frozen_follows_its_setting() {
    let mut s = default_settings();
    s.llm.enabled = true;
    s.llm.endpoint = "https://e".into();
    assert!(llm_effective_enabled(&s, false));
    let req = build_reload_config(&s, false, Some("sk-x"), false);
    assert!(req.llm_enabled);
    assert_eq!((req.llm_api_key.as_str(), req.llm_endpoint.as_str()), ("sk-x", "https://e"));
    s.llm.enabled = false;
    assert_eq!(build_reload_config(&s, false, Some("sk-x"), false).llm_api_key, "");
}

#[test]
fn disabled_llm_sends_empty_llm_fields() {
    let mut s = default_settings();
    s.llm.enabled = false;
    s.llm.endpoint = "https://leak".into();
    let req = build_reload_config(&s, true, Some("sk-should-not-leak"), false);
    assert!(!req.llm_enabled);
    assert_eq!(req.llm_api_key, "");
    assert_eq!(req.llm_endpoint, "", "無効時は endpoint も送らない");
}

#[test]
fn zenzai_flag_and_weight_are_forwarded_regardless_of_llm() {
    let mut s = default_settings();
    s.llm.enabled = false;
    s.zenzai_enabled = false;
    s.zenzai_weight_path = String::new();
    let req = build_reload_config(&s, true, None, false);
    assert!(!req.zenzai_enabled);
    assert_eq!(req.zenzai_weight, "");
}

#[test]
fn inference_limit_pushes_clamped_value_or_defers_to_env_override() {
    let mut s = default_settings();
    s.zenzai_inference_limit = 1;
    assert_eq!(build_reload_config(&s, true, None, false).zenzai_inference_limit, Some(1));
    assert_eq!(build_reload_config(&s, true, None, true).zenzai_inference_limit, None);
}

#[test]
fn engine_failure_diagnostics_never_include_response_bodies() {
    let sentinel = "秘密の入力と予測";
    for response in [
        Response::Reading { reading: sentinel.into() },
        Response::Candidates { candidates: vec![sentinel.into()] },
        Response::Committed { text: sentinel.into(), reading: sentinel.into() },
        Response::LlmResult { seq: 1, text: sentinel.into() },
        Response::Prediction { seq: 1, text: sentinel.into() },
        Response::Error { message: sentinel.into() },
    ] {
        let event = engine_failure_event("sentinel_test", &Ok(response));
        assert!(!event.contains(sentinel), "body leaked: {event}");
    }
}

#[test]
fn start_session_plan_adopts_session_and_drops_otherwise() {
    assert_eq!(
        plan_start_session(Ok(Response::Session { session: 7, proto: None, boot: None })),
        Some(7)
    );
    assert_eq!(plan_start_session(Err(IoFault::TimedOut)), None);
    assert_eq!(plan_start_session(Err(IoFault::BrokenPipe)), None);
    assert_eq!(plan_start_session(Ok(Response::Error { message: "x".into() })), None);
}

#[test]
fn end_session_ack_is_only_the_ok_response() {
    assert!(end_session_ack_accepted(&Ok(Response::Done)));
    assert!(!end_session_ack_accepted(&Ok(Response::Reading { reading: "にほんご".into() })));
    assert!(!end_session_ack_accepted(&Ok(Response::LiveResult {
        seq: 3,
        text: "日本語".into(),
        reading: "にほんご".into(),
        committed: None,
    })));
    assert!(!end_session_ack_accepted(&Ok(Response::Error { message: "x".into() })));
    assert!(!end_session_ack_accepted(&Err(IoFault::TimedOut)));
}

#[test]
fn handshake_decision_table() {
    assert_eq!(
        decide_handshake(Some(PROTO_VERSION), PROTO_VERSION, false),
        HandshakeAction::Accept
    );
    assert_eq!(
        decide_handshake(None, PROTO_VERSION, false),
        HandshakeAction::ShutdownRespawn
    );
    assert_eq!(
        decide_handshake(Some(999), PROTO_VERSION, false),
        HandshakeAction::ShutdownRespawn
    );
    assert_eq!(decide_handshake(None, PROTO_VERSION, true), HandshakeAction::DegradeKeep);
}

#[test]
fn slow_log_fires_past_half_tier() {
    let tier = 200;
    assert!(!should_log_slow(50, tier));
    assert!(!should_log_slow(100, tier));
    assert!(should_log_slow(101, tier));
}

#[test]
fn tier_values_are_ordered_as_specified() {
    assert_eq!(Duration::from_millis(IPC_TIMEOUT_FAST), Duration::from_millis(250));
    assert_eq!(Duration::from_millis(IPC_TIMEOUT_LIVE), Duration::from_millis(400));
    assert_eq!(Duration::from_millis(IPC_TIMEOUT_CONVERT), Duration::from_millis(1200));
}

#[test]
fn drained_committed_liveresult_needs_drop() {
    assert!(drained_needs_drop(&Response::LiveResult {
        seq: 1,
        text: "入力".into(),
        reading: "にゅうりょく".into(),
        committed: Some("日本語".into()),
    }));
    assert!(!drained_needs_drop(&Response::LiveResult {
        seq: 1,
        text: "にほんご".into(),
        reading: "にほんご".into(),
        committed: Some(String::new()),
    }));
    assert!(!drained_needs_drop(&Response::LiveResult {
        seq: 1,
        text: "日本語".into(),
        reading: "にほんご".into(),
        committed: None,
    }));
    assert!(!drained_needs_drop(&Response::Reading { reading: "にほんご".into() }));
}

#[test]
fn resume_poll_action_transitions() {
    assert_eq!(resume_poll_action(0, 0, false), None);
    assert_eq!(resume_poll_action(1, 0, false), Some(true));
    assert_eq!(resume_poll_action(1, 0, true), Some(false));
    assert_eq!(resume_poll_action(2, 1, false), Some(true));
    assert_eq!(resume_poll_action(0, u32::MAX, false), Some(true));
}

#[test]
fn failures_are_named_by_operation_and_class() {
    assert_eq!(
        engine_failure_event("insert", &Ok(Response::Pong)),
        "ev=engine_failure op=insert response=pong"
    );
    assert_eq!(
        engine_failure_event("insert", &Err(IoFault::TimedOut)),
        "ev=engine_failure op=insert io=TimedOut"
    );
    assert_eq!(
        engine_failure_event("insert", &Err(IoFault::Other("NotFound".into()))),
        "ev=engine_failure op=insert io=NotFound"
    );
    assert_eq!(response_kind(&Response::Done), "ok");
}
