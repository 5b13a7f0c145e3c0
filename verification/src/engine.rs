//! The messages between the text service and its engine, and the rules for reading them.

use vstd::prelude::*;
use vstd::string::*;
use crate::clause::{CommitId, ReceiptStatus};
use crate::text::joined;

verus! {

/// The time that short requests may take, in milliseconds.
pub const IPC_TIMEOUT_FAST: u64 = 250;

/// The time that a conversion may take, in milliseconds.
pub const IPC_TIMEOUT_CONVERT: u64 = 1200;

/// The time that a live conversion may take, in milliseconds.
pub const IPC_TIMEOUT_LIVE: u64 = 400;

/// How long a reply may stay owed before the engine counts as dead, in milliseconds.
pub const PENDING_MAX: u64 = 3000;

/// What the engine answers. There is no number that ties an answer to its request: every answer
/// belongs to the request before it.
#[derive(Clone, Debug, PartialEq, Eq)]
pub enum Response {
    Pong,
    Session { session: i64, proto: Option<u32>, boot: Option<String> },
    Reading { reading: String },
    Candidates { candidates: Vec<String> },
    Committed { text: String, reading: String },
    /// The request was carried out and has no other answer.
    Done,
    Error { message: String },
    LiveResult { seq: u64, text: String, reading: String, committed: Option<String> },
    LlmResult { seq: u64, text: String },
    Prediction { seq: u64, text: String },
    PredictionUnavailable { seq: u64, state: String },
    ClauseView {
        segments: Vec<String>,
        selected: u32,
        candidates: Vec<String>,
        candidate_index: u32,
    },
    CommitReceiptAck { commit_id: CommitId, status: ReceiptStatus },
}

/// Why no answer came.
#[derive(Clone, Debug, PartialEq, Eq)]
pub enum IoFault {
    TimedOut,
    BrokenPipe,
    /// Any other failure, by the name of its class.
    Other(String),
}

/// The answer to one request.
pub type Reply = Result<Response, IoFault>;

/// The typed characters of a request are kana or stay as they are.
#[derive(Clone, Copy, Debug, PartialEq, Eq, Structural)]
pub enum InsertStyle {
    Kana,
    Direct,
}

/// What the engine is told about the user's settings.
#[derive(Clone, Debug, PartialEq, Eq)]
pub struct ReloadConfig {
    pub llm_enabled: bool,
    pub llm_api_key: String,
    pub llm_endpoint: String,
    pub llm_model: String,
    pub llm_prompt: String,
    pub llm_timeout_ms: u64,
    pub zenzai_enabled: bool,
    pub zenzai_weight: String,
    pub inline_prediction_enabled: bool,
    pub learning_enabled: bool,
    pub typo_learn_enabled: bool,
    pub zenzai_inference_limit: Option<u32>,
}

/// What the text service asks.
#[derive(Clone, Debug, PartialEq, Eq)]
pub enum Request {
    StartSession,
    EndSession { session: i64 },
    /// `style` is left out for kana, so that engines without styles understand the request.
    Insert { session: i64, text: String, style: Option<String> },
    Backspace { session: i64 },
    Convert { session: i64, left_context: Option<String> },
    TypoConvert { session: i64, left_context: Option<String> },
    Reconvert { session: i64, surface: String, left_context: Option<String> },
    Commit { session: i64, index: u32 },
    LiveConvert { session: i64, seq: u64, left_context: Option<String>, auto_commit: bool },
    MoveClause { session: i64, offset: i32, base_index: u32, left_context: Option<String> },
    SelectClauseCandidate { session: i64, index: u32 },
    CommitClauses { session: i64 },
    RecordCorrection { reading: String, surface: String },
    Predict { session: i64, seq: u64, token_ids: Vec<u32> },
    ReloadConfig(ReloadConfig),
    Shutdown,
}

/// The engine committed something that the text service never showed: the two no longer agree.
pub open spec fn commits_unseen(response: Response) -> bool {
    response matches Response::LiveResult { committed: Some(s), .. } && s@.len() > 0
}

/// Whether a late answer means that the connection has to go.
pub fn drained_needs_drop(resp: &Response) -> (r: bool)
    ensures
        r == commits_unseen(*resp),
{
    match resp {
        Response::LiveResult { committed: Some(s), .. } => !s.as_str().is_empty(),
        _ => false,
    }
}

/// What became of an owed reply before the next request.
#[derive(Clone, Copy, Debug, PartialEq, Eq, Structural)]
pub enum DrainOutcome {
    /// Nothing is owed: the request may go out.
    Proceed,
    /// The reply is still owed: no request may go out, the connection stays.
    StillPending,
    /// The connection was given up.
    Dropped,
}

/// A request took more than half the time that it may take.
pub fn should_log_slow(elapsed_ms: u64, tier_ms: u64) -> (r: bool)
    ensures
        r == (elapsed_ms > tier_ms / 2),
{
    elapsed_ms > tier_ms / 2
}

/// The system woke up if the generation changed; an idle connection is then given up.
pub fn resume_poll_action(gen: u32, last: u32, busy: bool) -> (r: Option<bool>)
    ensures
        r == (if gen == last {
            None
        } else {
            Some(!busy)
        }),
{
    if gen == last {
        None
    } else {
        Some(!busy)
    }
}

/// The engine is started ahead of the first key only if nobody tried yet and it may be tried.
pub fn should_prespawn(has_client: bool, spawn_attempted: bool, backoff_allows: bool) -> (r: bool)
    ensures
        r == (!has_client && !spawn_attempted && backoff_allows),
{
    !has_client && !spawn_attempted && backoff_allows
}

/// The session that an answer opens.
pub open spec fn opened_session(reply: Reply) -> Option<i64> {
    match reply {
        Ok(Response::Session { session, .. }) => Some(session),
        _ => None,
    }
}

/// The session to use; without one the connection is given up, because a late answer would be
/// taken for the answer to the next request.
pub fn plan_start_session(result: Reply) -> (r: Option<i64>)
    ensures
        r == opened_session(result),
{
    match result {
        Ok(Response::Session { session, .. }) => Some(session),
        _ => None,
    }
}

/// Whether the end of a session was acknowledged. Any other answer shows that answers and
/// requests are out of step.
pub fn end_session_ack_accepted(result: &Reply) -> (r: bool)
    ensures
        r == (*result matches Ok(Response::Done)),
{
    matches!(result, Ok(Response::Done))
}

/// The name of an answer's kind.
pub open spec fn kind_name(response: Response) -> Seq<char> {
    match response {
        Response::Pong => "pong"@,
        Response::Session { .. } => "session"@,
        Response::Reading { .. } => "reading"@,
        Response::Candidates { .. } => "candidates"@,
        Response::Committed { .. } => "committed"@,
        Response::Done => "ok"@,
        Response::Error { .. } => "error"@,
        Response::LiveResult { .. } => "live_result"@,
        Response::LlmResult { .. } => "llm_result"@,
        Response::Prediction { .. } => "prediction"@,
        Response::PredictionUnavailable { .. } => "prediction_unavailable"@,
        Response::ClauseView { .. } => "clause_view"@,
        Response::CommitReceiptAck { .. } => "commit_receipt_ack"@,
    }
}

/// The kind of an answer. The texts that the user typed never reach a log through it.
pub fn response_kind(response: &Response) -> (r: &'static str)
    ensures
        r@ == kind_name(*response),
{
    match response {
        Response::Pong => "pong",
        Response::Session { .. } => "session",
        Response::Reading { .. } => "reading",
        Response::Candidates { .. } => "candidates",
        Response::Committed { .. } => "committed",
        Response::Done => "ok",
        Response::Error { .. } => "error",
        Response::LiveResult { .. } => "live_result",
        Response::LlmResult { .. } => "llm_result",
        Response::Prediction { .. } => "prediction",
        Response::PredictionUnavailable { .. } => "prediction_unavailable",
        Response::ClauseView { .. } => "clause_view",
        Response::CommitReceiptAck { .. } => "commit_receipt_ack",
    }
}

/// The name of a failure's class.
pub open spec fn fault_name(fault: IoFault) -> Seq<char> {
    match fault {
        IoFault::TimedOut => "TimedOut"@,
        IoFault::BrokenPipe => "BrokenPipe"@,
        IoFault::Other(name) => name@,
    }
}

/// The line that a failed operation leaves in the log.
pub open spec fn failure_line(op: Seq<char>, result: Reply) -> Seq<char> {
    match result {
        Ok(response) => "ev=engine_failure op="@ + op + " response="@ + kind_name(response),
        Err(fault) => "ev=engine_failure op="@ + op + " io="@ + fault_name(fault),
    }
}

/// The line that a failed operation leaves in the log.
pub fn engine_failure_event(op: &str, result: &Reply) -> (r: String)
    ensures
        r@ == failure_line(op@, *result),
{
    let head = joined("ev=engine_failure op=", op);
    match result {
        Ok(response) => joined(joined(head.as_str(), " response=").as_str(), response_kind(response)),
        Err(fault) => {
            let name: &str = match fault {
                IoFault::TimedOut => "TimedOut",
                IoFault::BrokenPipe => "BrokenPipe",
                IoFault::Other(name) => name.as_str(),
            };
            joined(joined(head.as_str(), " io=").as_str(), name)
        },
    }
}

/// Two answers of the same kind leave the same line, whatever texts they carry.
pub proof fn a_failure_line_shows_only_the_kind(op: Seq<char>, a: Response, b: Response)
    requires
        kind_name(a) == kind_name(b),
    ensures
        failure_line(op, Ok(a)) == failure_line(op, Ok(b)),
{
}

/// What to do with an engine of another build.
#[derive(Debug, PartialEq, Eq, Clone, Copy, Structural)]
pub enum HandshakeAction {
    /// It speaks this protocol.
    Accept,
    /// It does not, and was not asked to make room yet.
    ShutdownRespawn,
    /// It does not, and asking did not help: go on with what both understand.
    DegradeKeep,
}

/// What to do with an engine that speaks `proto`.
pub open spec fn handshake(proto: Option<u32>, own_proto: u32, already_attempted: bool)
 -> HandshakeAction {
    if proto == Some(own_proto) {
        HandshakeAction::Accept
    } else if already_attempted {
        HandshakeAction::DegradeKeep
    } else {
        HandshakeAction::ShutdownRespawn
    }
}

/// What to do with an engine that speaks `proto`; `None` is an engine from before the handshake.
pub fn decide_handshake(proto: Option<u32>, own_proto: u32, already_attempted: bool) -> (r:
    HandshakeAction)
    ensures
        r == handshake(proto, own_proto, already_attempted),
{
    let same = match proto {
        Some(p) => p == own_proto,
        None => false,
    };
    if same {
        HandshakeAction::Accept
    } else if already_attempted {
        HandshakeAction::DegradeKeep
    } else {
        HandshakeAction::ShutdownRespawn
    }
}

/// The settings of the external model.
#[derive(Clone, Debug, PartialEq, Eq)]
pub struct LlmSettings {
    pub enabled: bool,
    pub endpoint: String,
    pub model: String,
    pub prompt: String,
    pub timeout_ms: u64,
}

/// The settings that the engine depends on.
#[derive(Clone, Debug, PartialEq, Eq)]
pub struct EngineSettings {
    pub llm: LlmSettings,
    pub zenzai_enabled: bool,
    pub zenzai_weight_path: String,
    /// The limit within its bounds.
    pub zenzai_inference_limit: u32,
    pub inline_prediction_enabled: bool,
    pub learning_enabled: bool,
    pub typo_learn: bool,
}

/// Whether the external model is in use. While it is frozen, no setting switches it on.
pub fn llm_effective_enabled(s: &EngineSettings, frozen: bool) -> (r: bool)
    ensures
        r == (s.llm.enabled && !frozen),
{
    s.llm.enabled && !frozen
}

/// What the engine is told. Nothing about the external model leaves while it is not in use, the
/// key least of all; a limit from the environment is not overridden.
pub fn build_reload_config(
    s: &EngineSettings,
    llm_frozen: bool,
    api_key_plain: Option<&str>,
    limit_from_environment: bool,
) -> (r: ReloadConfig)
    ensures
        r.llm_enabled == (s.llm.enabled && !llm_frozen),
        r.llm_enabled ==> r.llm_api_key@ == (match api_key_plain {
            Some(key) => key@,
            None => Seq::empty(),
        }) && r.llm_endpoint@ == s.llm.endpoint@ && r.llm_model@ == s.llm.model@ && r.llm_prompt@
            == s.llm.prompt@,
        !r.llm_enabled ==> r.llm_api_key@.len() == 0 && r.llm_endpoint@.len() == 0
            && r.llm_model@.len() == 0 && r.llm_prompt@.len() == 0,
        r.llm_timeout_ms == s.llm.timeout_ms,
        r.zenzai_enabled == s.zenzai_enabled,
        r.zenzai_weight@ == s.zenzai_weight_path@,
        r.inline_prediction_enabled == s.inline_prediction_enabled,
        r.learning_enabled == s.learning_enabled,
        r.typo_learn_enabled == s.typo_learn,
        r.zenzai_inference_limit == (if limit_from_environment {
            None
        } else {
            Some(s.zenzai_inference_limit)
        }),
{
    let llm_on = llm_effective_enabled(s, llm_frozen);
    ReloadConfig {
        llm_enabled: llm_on,
        llm_api_key: if llm_on {
            match api_key_plain {
                Some(key) => key.to_owned(),
                None => String::new(),
            }
        } else {
            String::new()
        },
        llm_endpoint: if llm_on {
            s.llm.endpoint.clone()
        } else {
            String::new()
        },
        llm_model: if llm_on {
            s.llm.model.clone()
        } else {
            String::new()
        },
        llm_prompt: if llm_on {
            s.llm.prompt.clone()
        } else {
            String::new()
        },
        llm_timeout_ms: s.llm.timeout_ms,
        zenzai_enabled: s.zenzai_enabled,
        zenzai_weight: s.zenzai_weight_path.clone(),
        inline_prediction_enabled: s.inline_prediction_enabled,
        learning_enabled: s.learning_enabled,
        typo_learn_enabled: s.typo_learn,
        zenzai_inference_limit: if limit_from_environment {
            None
        } else {
            Some(s.zenzai_inference_limit)
        },
    }
}

/// A session is opened exactly by the answer that names it.
pub proof fn a_session_is_opened_by_its_answer(
    reply: Reply,
    session: i64,
    proto: Option<u32>,
    boot: Option<String>,
)
    ensures
        opened_session(Ok(Response::Session { session, proto, boot })) == Some(session),
        opened_session(reply) is Some <==> reply is Ok && reply->Ok_0 is Session,
{
}

/// An engine of this protocol is taken; one of another is asked once to make room and then taken
/// as it is.
pub proof fn another_engine_is_asked_once_to_make_room(
    proto: Option<u32>,
    own: u32,
    attempted: bool,
)
    ensures
        handshake(Some(own), own, attempted) == HandshakeAction::Accept,
        proto != Some(own) ==> handshake(proto, own, false) == HandshakeAction::ShutdownRespawn,
        proto != Some(own) ==> handshake(proto, own, true) == HandshakeAction::DegradeKeep,
{
}

/// Only a live conversion that committed some text did so unseen.
pub proof fn only_a_committed_text_is_unseen(
    response: Response,
    seq: u64,
    text: String,
    reading: String,
    committed: String,
)
    ensures
        commits_unseen(Response::LiveResult { seq, text, reading, committed: Some(committed) })
            <==> committed@.len() > 0,
        !commits_unseen(Response::LiveResult { seq, text, reading, committed: None }),
        !(response is LiveResult) ==> !commits_unseen(response),
{
}

/// A line in the log names the operation and the kind of the answer or of the fault.
pub proof fn a_failure_line_names_the_operation(op: Seq<char>, response: Response, fault: IoFault)
    ensures
        failure_line(op, Ok(response)) == "ev=engine_failure op="@ + op + " response="@ + kind_name(
            response,
        ),
        failure_line(op, Err(fault)) == "ev=engine_failure op="@ + op + " io="@ + fault_name(fault),
        fault_name(IoFault::TimedOut) == "TimedOut"@,
        fault_name(IoFault::BrokenPipe) == "BrokenPipe"@,
        fault is Other ==> fault_name(fault) == fault->Other_0@,
{
}

/// A key waits a quarter of a second for the engine, a live conversion somewhat longer, and a
/// conversion that was asked for more than a second; an owed answer is given up after three.
pub proof fn the_engine_has_its_time()
    ensures
        IPC_TIMEOUT_FAST == 250 && IPC_TIMEOUT_LIVE == 400 && IPC_TIMEOUT_CONVERT == 1200,
        PENDING_MAX == 3000,
        IPC_TIMEOUT_FAST < IPC_TIMEOUT_LIVE < IPC_TIMEOUT_CONVERT < PENDING_MAX,
{
}

} // verus!
