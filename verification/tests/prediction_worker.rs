use nospacekey_tip::engine::{IoFault, Request, Response};
use nospacekey_tip::prediction_state::{
    CommitSource, PredictionAnchor, PredictionRequest, PredictionState, Timestamp,
};
use nospacekey_tip::prediction_worker::{
    check_product_file, check_truncation, interpret_response, model_dir, prediction_session,
    prompt_of, run_prediction, sha256_text, tokenize_product, tokenize_with_path, ArtifactCache, ArtifactFault, ArtifactFiles, EngineIdentityError,
    IpcPredictionOutcome, IpcPredictionResult, ModelDirectory, PredictionJob, PredictionSlot,
    Predictor, TokenizeError, TokenizerCache, WorkerAction, MODEL_LEN, TOKENIZER_LEN,
    TOKENIZER_SHA256, VERIFIED_CONTENT,
};

const PROTO_VERSION: u32 = 4;

struct DeterministicPredictor {
    text: String,
}

impl DeterministicPredictor {
    fn new(text: &str) -> Self {
        Self { text: text.into() }
    }
}

impl Predictor for DeterministicPredictor {
    fn predict(&self, _context_before: &str) -> Option<String> {
        Some(self.text.clone())
    }
}

struct Echo;

impl Predictor for Echo {
    fn predict(&self, context_before: &str) -> Option<String> {
        Some(context_before.to_string())
    }
}

fn request(seq: u64) -> PredictionRequest {
    PredictionRequest {
        seq,
        context_before: "明日の予定を事前に".into(),
        anchor: PredictionAnchor::new(5),
        deadline_at: Timestamp::from_millis(500),
    }
}

#[test]
fn deterministic_predictor_returns_a_seq_correlated_outcome() {
    let predictor = DeterministicPredictor::new("確認しておきます。");
    let request = PredictionRequest {
        seq: 42,
        context_before: "明日の予定を事前に".into(),
        anchor: PredictionAnchor::new(5),
        deadline_at: Timestamp::from_millis(500),
    };

    let outcome = run_prediction(&predictor, &request, Timestamp::from_millis(200));

    assert_eq!(outcome.seq, 42);
    assert_eq!(outcome.text.as_deref(), Some("確認しておきます。"));
    assert_eq!(outcome.finished_at, Timestamp::from_millis(200));
}

#[test]
fn a_predictor_gets_the_text_of_the_request() {
    let outcome = run_prediction(&Echo, &request(1), Timestamp::from_millis(0));
    assert_eq!(outcome.text.as_deref(), Some("明日の予定を事前に"));
}

#[test]
fn state_machine_and_test_predictor_complete_the_model_free_flow() {
    let mut state = PredictionState::default();
    state.on_commit(
        CommitSource::Enter,
        "明日の予定を事前に確認して",
        PredictionAnchor::new(8),
        Timestamp::from_millis(0),
    );
    let request = state.poll(Timestamp::from_millis(300)).unwrap();
    let outcome = run_prediction(
        &DeterministicPredictor::new("おきます。"),
        &request,
        Timestamp::from_millis(340),
    );

    let ghost = state
        .on_result(
            outcome.seq,
            outcome.text.as_deref().unwrap(),
            outcome.finished_at,
        )
        .unwrap();

    assert_eq!(ghost.text, "おきます。");
    assert_eq!(ghost.anchor, PredictionAnchor::new(8));
}

#[test]
fn ipc_response_requires_matching_sequence() {
    assert_eq!(
        interpret_response(4, Response::Prediction { seq: 3, text: "古い".into() }, 1).result,
        IpcPredictionResult::Failed
    );
    assert_eq!(
        interpret_response(4, Response::Prediction { seq: 4, text: "続き".into() }, 1).result,
        IpcPredictionResult::Prediction("続き".into())
    );
}

#[test]
fn explicit_unavailable_state_is_not_a_prediction() {
    assert_eq!(
        interpret_response(
            4,
            Response::PredictionUnavailable { seq: 4, state: "loading".into() },
            1,
        )
        .result,
        IpcPredictionResult::Unavailable("loading".into())
    );
}

#[test]
fn prediction_identity_mismatch_sends_no_predict_request() {
    let mut requests = Vec::new();
    let result = prediction_session(
        |request: &Request| {
            requests.push(matches!(request, Request::StartSession));
            Ok(Response::Session {
                session: 7,
                proto: Some(PROTO_VERSION),
                boot: Some("loaded-old-build".into()),
            })
        },
        PROTO_VERSION,
        "this-build",
    );
    assert!(matches!(result, Err(EngineIdentityError::Mismatch { .. })));
    assert_eq!(requests, vec![true]);
}

#[test]
fn a_session_needs_the_same_build() {
    let session = |proto: Option<u32>, boot: Option<&str>| {
        let boot = boot.map(|b| b.to_string());
        prediction_session(
            move |_: &Request| Ok(Response::Session { session: 7, proto, boot }),
            PROTO_VERSION,
            "b",
        )
    };
    assert_eq!(session(Some(PROTO_VERSION), Some("b")), Ok(7));
    assert!(session(Some(PROTO_VERSION), None).is_err());
    assert_eq!(
        session(Some(3), Some("b")),
        Err(EngineIdentityError::Mismatch {
            actual_proto: Some(3),
            actual_boot: Some("b".into()),
        })
    );
    assert_eq!(
        prediction_session(|_: &Request| Ok(Response::Pong), PROTO_VERSION, "b"),
        Err(EngineIdentityError::Protocol)
    );
    assert_eq!(
        prediction_session(|_: &Request| Err(IoFault::TimedOut), PROTO_VERSION, "b"),
        Err(EngineIdentityError::Io(IoFault::TimedOut))
    );
}

fn files() -> ArtifactFiles {
    ArtifactFiles {
        model_path: "m".into(),
        tokenizer_path: "t".into(),
        model_len: Some(MODEL_LEN),
        tokenizer_len: Some(TOKENIZER_LEN),
        marker: Some(None),
    }
}

#[test]
fn artifacts_are_refused_for_the_first_fault() {
    let good = || Some(VERIFIED_CONTENT.to_string());
    let check = |f: ArtifactFiles| ArtifactCache::new().verify_artifacts(&f, good);
    assert_eq!(check(files()), Ok("t".to_string()));
    assert_eq!(
        check(ArtifactFiles { model_len: None, ..files() }),
        Err(ArtifactFault::MissingModel)
    );
    assert_eq!(
        check(ArtifactFiles { tokenizer_len: None, ..files() }),
        Err(ArtifactFault::MissingTokenizer)
    );
    assert_eq!(
        check(ArtifactFiles { marker: None, ..files() }),
        Err(ArtifactFault::UnverifiedModel)
    );
    assert_eq!(
        check(ArtifactFiles { model_len: Some(1), ..files() }),
        Err(ArtifactFault::InvalidModel)
    );
    assert_eq!(
        check(ArtifactFiles { tokenizer_len: Some(1), ..files() }),
        Err(ArtifactFault::InvalidTokenizer)
    );
    assert_eq!(
        ArtifactCache::new().verify_artifacts(&files(), || None),
        Err(ArtifactFault::UnverifiedModel)
    );
    assert_eq!(
        ArtifactCache::new().verify_artifacts(&files(), || Some("schema=1\n".to_string())),
        Err(ArtifactFault::UnverifiedModel)
    );
    assert_eq!(ArtifactFault::ArtifactCacheFailed.state(), "artifact_cache_failed");
    assert!(VERIFIED_CONTENT.starts_with("schema=1\nmodel_sha256=191f2fdf"));
    assert!(VERIFIED_CONTENT.ends_with("26bc733f0\n"));
}

#[test]
fn known_artifacts_are_not_read_again() {
    let mut cache = ArtifactCache::new();
    assert!(cache.verify_artifacts(&files(), || None).is_err());
    assert_eq!(
        cache.verify_artifacts(&files(), || panic!("read again")),
        Err(ArtifactFault::UnverifiedModel)
    );
    let changed = ArtifactFiles {
        marker: Some(Some(std::time::SystemTime::UNIX_EPOCH)),
        ..files()
    };
    assert_eq!(
        cache.verify_artifacts(&changed, || Some(VERIFIED_CONTENT.to_string())),
        Ok("t".to_string())
    );
    assert_eq!(
        cache.verify_artifacts(&changed, || panic!("read again")),
        Ok("t".to_string())
    );
    let later = ArtifactFiles {
        marker: Some(Some(
            std::time::SystemTime::UNIX_EPOCH + std::time::Duration::from_secs(1),
        )),
        ..files()
    };
    assert!(cache.verify_artifacts(&later, || None).is_err());
}

#[test]
fn the_model_directory_can_be_named() {
    assert_eq!(
        model_dir(Some("d".into()), Some("l".into())),
        Some(ModelDirectory::Given("d".into()))
    );
    assert_eq!(model_dir(None, Some("l".into())), Some(ModelDirectory::Below("l".into())));
    assert_eq!(model_dir(None, None), None);
}

const WORDS: &str = r#"{
  "version": "1.0",
  "truncation": null,
  "padding": null,
  "added_tokens": [],
  "normalizer": null,
  "pre_tokenizer": { "type": "Whitespace" },
  "post_processor": null,
  "decoder": null,
  "model": { "type": "WordLevel", "vocab": { "a": 11, "b": 22, "?": 0 }, "unk_token": "?" }
}"#;

#[test]
fn a_prompt_is_made_with_the_tokenizer_of_its_path() {
    let mut cache: Option<TokenizerCache> = None;
    let words = || Some(WORDS.as_bytes().to_vec());
    assert_eq!(tokenize_with_path(&mut cache, "p", words, "a b c"), Ok(vec![11, 22, 0]));
    assert_eq!(
        tokenize_with_path(&mut cache, "p", || panic!("read again"), "b"),
        Ok(vec![22])
    );
    assert_eq!(
        tokenize_with_path(&mut cache, "p", || None, ""),
        Err(TokenizeError::EmptyPrompt)
    );
    assert_eq!(
        tokenize_with_path(&mut cache, "q", || None, "a"),
        Err(TokenizeError::Unavailable)
    );
    assert_eq!(
        tokenize_with_path(&mut cache, "q", || Some(b"{}".to_vec()), "a"),
        Err(TokenizeError::Unavailable)
    );
    assert_eq!(
        tokenize_with_path(&mut cache, "p", || panic!("read again"), "a"),
        Ok(vec![11])
    );
    let long = "b ".repeat(600);
    let ids = tokenize_with_path(&mut cache, "p", words, &format!("a {long}")).unwrap();
    assert_eq!(ids.len(), 480);
    assert_eq!((ids[0], ids[1], ids[479]), (11, 22, 22));
}

#[test]
fn a_long_prompt_keeps_its_first_token_and_its_end() {
    assert_eq!(prompt_of(None), Err(TokenizeError::Failed));
    assert_eq!(prompt_of(Some(vec![])), Err(TokenizeError::EmptyPrompt));
    let exact: Vec<u32> = (0..480).collect();
    assert_eq!(prompt_of(Some(exact.clone())), Ok(exact));
    let cut = prompt_of(Some((0..481).collect())).unwrap();
    assert_eq!(cut.len(), 480);
    assert_eq!((cut[0], cut[1], cut[479]), (0, 2, 480));
}

fn finished(action: WorkerAction) -> IpcPredictionOutcome {
    match action {
        WorkerAction::Complete(outcome) => outcome,
        other => panic!("not finished: {other:?}"),
    }
}

#[test]
fn a_job_goes_from_its_request_to_its_outcome() {
    let job = PredictionJob::new(&request(9), 400);
    assert_eq!(job.started(false), WorkerAction::CheckArtifacts);
    assert_eq!(
        job.artifacts_checked(Some(Ok("t".into())), "c".into(), false, 1),
        WorkerAction::Tokenize { path: "t".into(), context_before: "c".into() }
    );
    assert_eq!(
        job.tokenized(Ok(vec![1, 2]), false, 2),
        WorkerAction::Connect { budget_ms: 75, token_ids: vec![1, 2] }
    );
    assert_eq!(
        PredictionJob::new(&request(9), 50).tokenized(Ok(vec![1]), false, 2),
        WorkerAction::Connect { budget_ms: 50, token_ids: vec![1] }
    );
    assert_eq!(
        job.connected(true, vec![1, 2], 3),
        WorkerAction::StartSession { token_ids: vec![1, 2] }
    );
    assert_eq!(
        job.session_started(Ok(7), vec![1, 2], 4),
        WorkerAction::Ask(Request::Predict { session: 7, seq: 9, token_ids: vec![1, 2] })
    );
    assert_eq!(
        finished(job.answered(Ok(Response::Prediction { seq: 9, text: "続き".into() }), 5)),
        IpcPredictionOutcome {
            seq: 9,
            result: IpcPredictionResult::Prediction("続き".into()),
            duration_ms: 5,
        }
    );
}

#[test]
fn a_job_stops_when_nobody_waits_and_tells_what_it_lacks() {
    let job = PredictionJob::new(&request(9), 400);
    assert_eq!(job.started(true), WorkerAction::Stop);
    assert_eq!(
        job.artifacts_checked(Some(Ok("t".into())), "c".into(), true, 1),
        WorkerAction::Stop
    );
    assert_eq!(job.tokenized(Ok(vec![1]), true, 1), WorkerAction::Stop);
    assert_eq!(
        finished(job.artifacts_checked(None, "c".into(), true, 1)).result,
        IpcPredictionResult::Unavailable("missing_model".into())
    );
    assert_eq!(
        finished(job.artifacts_checked(Some(Err(ArtifactFault::InvalidModel)), "c".into(), false, 1))
            .result,
        IpcPredictionResult::Unavailable("invalid_model".into())
    );
    assert_eq!(
        finished(job.tokenized(Err(TokenizeError::EmptyPrompt), false, 1)).result,
        IpcPredictionResult::Unavailable("invalid_tokenizer".into())
    );
    assert_eq!(finished(job.connected(false, vec![], 1)).result, IpcPredictionResult::Failed);
    assert_eq!(
        finished(job.session_started(
            Err(EngineIdentityError::Mismatch { actual_proto: Some(1), actual_boot: None }),
            vec![],
            1
        ))
        .result,
        IpcPredictionResult::VersionMismatch { actual_proto: Some(1), actual_boot: None }
    );
    assert_eq!(
        finished(job.session_started(Err(EngineIdentityError::Protocol), vec![], 1)).result,
        IpcPredictionResult::Failed
    );
    assert_eq!(
        finished(job.answered(Err(IoFault::BrokenPipe), 1)).result,
        IpcPredictionResult::Failed
    );
}

#[test]
fn a_cancelled_slot_takes_no_outcome() {
    let outcome = |seq: u64| IpcPredictionOutcome {
        seq,
        result: IpcPredictionResult::Failed,
        duration_ms: 0,
    };
    let mut slot = PredictionSlot::new();
    slot.complete(outcome(1));
    assert_eq!(slot.take(), Some(outcome(1)));
    assert_eq!(slot.take(), None);
    slot.cancel();
    assert!(slot.is_cancelled());
    slot.complete(outcome(2));
    assert_eq!(slot.take(), None);
}

#[test]
fn every_tokenizer_file_that_loads_gives_a_prompt() {
    let other = WORDS.replace("11", "12");
    let mut cache: Option<TokenizerCache> = None;
    assert_eq!(
        tokenize_with_path(&mut cache, "p", || Some(other.clone().into_bytes()), "a b"),
        Ok(vec![12, 22])
    );
    let short = WORDS.replace(
        "\"truncation\": null",
        "\"truncation\": { \"direction\": \"Right\", \"max_length\": 2, \"strategy\": \"LongestFirst\", \"stride\": 2 }",
    );
    assert_eq!(
        tokenize_with_path(&mut cache, "q", || Some(short.clone().into_bytes()), "b"),
        Ok(vec![22])
    );
}

#[test]
fn a_caller_that_knows_nothing_of_the_file_asks_only_the_product() {
    assert_eq!(
        sha256_text(b"abc"),
        "ba7816bf8f01cfea414140de5dae2223b00361a396177a9cb410ff61f20015ad"
    );
    assert_eq!(
        sha256_text(b""),
        "e3b0c44298fc1c149afbf4c8996fb92427ae41e4649b934ca495991b7852b855"
    );
    assert!(VERIFIED_CONTENT.contains(TOKENIZER_SHA256));
    assert!(!check_product_file(WORDS.as_bytes()));
    let words = || Some(WORDS.as_bytes().to_vec());
    let mut cache: Option<TokenizerCache> = None;
    assert_eq!(
        tokenize_product(&mut cache, "p", || None, "a"),
        Some(Err(TokenizeError::Unavailable))
    );
    assert_eq!(tokenize_product(&mut cache, "p", words, "a"), None);
    assert!(cache.is_none());
    assert_eq!(tokenize_with_path(&mut cache, "p", words, "a"), Ok(vec![11]));
    assert_eq!(tokenize_product(&mut cache, "p", || panic!("read again"), "a"), None);
}

#[test]
fn a_truncation_needs_room_for_its_stride_and_the_added_tokens() {
    assert!(check_truncation(None, 5));
    assert!(check_truncation(Some((8, 3)), 4));
    assert!(!check_truncation(Some((8, 4)), 4));
    assert!(check_truncation(Some((4, 4)), 4));
    assert!(!check_truncation(Some((3, 0)), 4));
    assert!(!check_truncation(Some((8, usize::MAX)), 4));
}
