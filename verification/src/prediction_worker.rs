//! One inline prediction, from its request to its outcome: the artifacts are checked, the context
//! is tokenized, and the engine is asked over a connection of its own.

use sha2::{Digest, Sha256};
use std::time::SystemTime;
use tokenizers::{PostProcessor, Tokenizer};
use vstd::prelude::*;
use vstd::string::*;
use crate::engine::{IoFault, Reply, Request, Response};
use crate::prediction_state::{PredictionRequest, Timestamp};
use crate::text::same_text;
use crate::text_service::feedback::{hex_of, lower_hex};
use crate::theme::same_moment;

verus! {

/// Something that continues a text.
pub trait Predictor {
    fn predict(&self, context_before: &str) -> Option<String>;
}

/// What a predictor made of a request.
#[derive(Debug, PartialEq, Eq)]
pub struct PredictionOutcome {
    pub seq: u64,
    pub text: Option<String>,
    pub finished_at: Timestamp,
}

/// Runs a predictor on the text of a request.
pub fn run_prediction<P: Predictor>(
    predictor: &P,
    request: &PredictionRequest,
    finished_at: Timestamp,
) -> (r: PredictionOutcome)
    ensures
        r.seq == request.seq,
        r.finished_at == finished_at,
        exists|s: &str|
            s@ == request.context_before@ && call_ensures(P::predict, (predictor, s), r.text),
{
    let text = predictor.predict(request.context_before.as_str());
    PredictionOutcome { seq: request.seq, text, finished_at }
}

/// How a request to the engine ended.
#[derive(Debug, PartialEq, Eq)]
pub enum IpcPredictionResult {
    Prediction(String),
    Unavailable(String),
    Failed,
    VersionMismatch { actual_proto: Option<u32>, actual_boot: Option<String> },
}

/// The end of one request.
#[derive(Debug, PartialEq, Eq)]
pub struct IpcPredictionOutcome {
    pub seq: u64,
    pub result: IpcPredictionResult,
    pub duration_ms: u128,
}

/// Where the worker leaves its outcome.
pub struct PredictionSlot {
    pub outcome: Option<IpcPredictionOutcome>,
    pub cancelled: bool,
}

impl PredictionSlot {
    /// The slot after an outcome arrived.
    pub open spec fn completed(self, outcome: IpcPredictionOutcome) -> PredictionSlot {
        if self.cancelled {
            self
        } else {
            PredictionSlot { outcome: Some(outcome), ..self }
        }
    }

    pub fn new() -> (r: Self)
        ensures
            r.outcome is None,
            !r.cancelled,
    {
        PredictionSlot { outcome: None, cancelled: false }
    }

    /// Nobody waits for the outcome any more.
    pub fn cancel(&mut self)
        ensures
            *final(self) == (PredictionSlot { cancelled: true, ..*old(self) }),
    {
        self.cancelled = true;
    }

    pub fn is_cancelled(&self) -> (r: bool)
        ensures
            r == self.cancelled,
    {
        self.cancelled
    }

    /// Takes the outcome out.
    pub fn take(&mut self) -> (r: Option<IpcPredictionOutcome>)
        ensures
            r == old(self).outcome,
            *final(self) == (PredictionSlot { outcome: None, ..*old(self) }),
    {
        self.outcome.take()
    }

    /// Leaves an outcome, unless nobody waits for it.
    pub fn complete(&mut self, outcome: IpcPredictionOutcome)
        ensures
            *final(self) == old(self).completed(outcome),
    {
        if !self.cancelled {
            self.outcome = Some(outcome);
        }
    }
}

pub const MODEL_FILENAME: &'static str = "llm-jp-3-150m-q8_0-c060ca9.gguf";

pub const TOKENIZER_FILENAME: &'static str = "tokenizer.json";

pub const VERIFIED_FILENAME: &'static str = "VERIFIED";

pub const MODEL_LEN: u64 = 164_257_184;

pub const TOKENIZER_LEN: u64 = 6_416_433;

/// What the downloader records once both artifacts have the right hashes.
pub const VERIFIED_CONTENT: &'static str =
    "schema=1\nmodel_sha256=191f2fdf41a6f64f00ec6b4fcc39ec6164bb13b41d3609ac8f5b2b6149a23a6d\ntokenizer_sha256=955dc1fa623fab38cc92a3f4ee172423ae6d73201c4207569bfdf5626bc733f0\n";

/// Why the artifacts cannot be used.
#[derive(Clone, Copy, Debug, PartialEq, Eq, Structural)]
pub enum ArtifactFault {
    MissingModel,
    MissingTokenizer,
    UnverifiedModel,
    ArtifactCacheFailed,
    InvalidModel,
    InvalidTokenizer,
}

impl ArtifactFault {
    /// The name under which the fault is reported.
    pub open spec fn name(self) -> Seq<char> {
        match self {
            ArtifactFault::MissingModel => "missing_model"@,
            ArtifactFault::MissingTokenizer => "missing_tokenizer"@,
            ArtifactFault::UnverifiedModel => "unverified_model"@,
            ArtifactFault::ArtifactCacheFailed => "artifact_cache_failed"@,
            ArtifactFault::InvalidModel => "invalid_model"@,
            ArtifactFault::InvalidTokenizer => "invalid_tokenizer"@,
        }
    }

    pub fn state(self) -> (r: &'static str)
        ensures
            r@ == self.name(),
    {
        match self {
            ArtifactFault::MissingModel => "missing_model",
            ArtifactFault::MissingTokenizer => "missing_tokenizer",
            ArtifactFault::UnverifiedModel => "unverified_model",
            ArtifactFault::ArtifactCacheFailed => "artifact_cache_failed",
            ArtifactFault::InvalidModel => "invalid_model",
            ArtifactFault::InvalidTokenizer => "invalid_tokenizer",
        }
    }
}

/// What identifies a pair of artifacts without reading them.
pub struct ArtifactFingerprint {
    pub model_path: String,
    pub model_len: u64,
    pub tokenizer_path: String,
    pub tokenizer_len: u64,
    pub marker_modified: Option<SystemTime>,
}

impl ArtifactFingerprint {
    /// Two fingerprints of the same artifacts.
    pub open spec fn matches_fingerprint(self, other: ArtifactFingerprint) -> bool {
        &&& self.model_path@ == other.model_path@
        &&& self.model_len == other.model_len
        &&& self.tokenizer_path@ == other.tokenizer_path@
        &&& self.tokenizer_len == other.tokenizer_len
        &&& self.marker_modified == other.marker_modified
    }

    fn same(&self, other: &ArtifactFingerprint) -> (r: bool)
        ensures
            r == self.matches_fingerprint(*other),
    {
        let modified = match (&self.marker_modified, &other.marker_modified) {
            (Some(a), Some(b)) => same_moment(a, b),
            (None, None) => true,
            _ => false,
        };
        modified && self.model_len == other.model_len && self.tokenizer_len == other.tokenizer_len
            && same_text(self.model_path.as_str(), other.model_path.as_str()) && same_text(
            self.tokenizer_path.as_str(),
            other.tokenizer_path.as_str(),
        )
    }
}

/// What is known of the files in the model directory.
pub struct ArtifactFiles {
    pub model_path: String,
    pub tokenizer_path: String,
    /// The length of the model, if it is there.
    pub model_len: Option<u64>,
    /// The length of the tokenizer, if it is there.
    pub tokenizer_len: Option<u64>,
    /// The marker's last change, where the marker is there and its last change is known.
    pub marker: Option<Option<SystemTime>>,
}

impl ArtifactFiles {
    /// The fault that shows without a look into the files.
    pub open spec fn absence(self) -> Option<ArtifactFault> {
        if self.model_len is None {
            Some(ArtifactFault::MissingModel)
        } else if self.tokenizer_len is None {
            Some(ArtifactFault::MissingTokenizer)
        } else if self.marker is None {
            Some(ArtifactFault::UnverifiedModel)
        } else {
            None
        }
    }

    /// The fingerprint of files that are all there.
    pub open spec fn is_described_by(self, f: ArtifactFingerprint) -> bool {
        &&& self.absence() is None
        &&& f.model_path@ == self.model_path@
        &&& f.tokenizer_path@ == self.tokenizer_path@
        &&& f.model_len == self.model_len->0
        &&& f.tokenizer_len == self.tokenizer_len->0
        &&& f.marker_modified == self.marker->0
    }

    /// What the files are worth; `receipt` is the text of the marker, if it could be read.
    pub open spec fn worth(self, receipt: Option<Seq<char>>) -> Result<(), ArtifactFault> {
        if self.model_len != Some(MODEL_LEN) {
            Err(ArtifactFault::InvalidModel)
        } else if self.tokenizer_len != Some(TOKENIZER_LEN) {
            Err(ArtifactFault::InvalidTokenizer)
        } else if receipt != Some(VERIFIED_CONTENT@) {
            Err(ArtifactFault::UnverifiedModel)
        } else {
            Ok(())
        }
    }
}

/// A pair of artifacts that was looked into, and what it was worth.
pub struct CheckedArtifacts {
    pub fingerprint: ArtifactFingerprint,
    pub worth: Result<(), ArtifactFault>,
}

/// The last pair of artifacts that was looked into.
pub struct ArtifactCache {
    pub last: Option<CheckedArtifacts>,
}

impl ArtifactCache {
    /// What the last look gave, where it was at the same artifacts.
    pub open spec fn known(self, files: ArtifactFiles) -> Option<Result<(), ArtifactFault>> {
        match self.last {
            Some(checked) => if files.is_described_by(checked.fingerprint) {
                Some(checked.worth)
            } else {
                None
            },
            None => None,
        }
    }

    pub fn new() -> (r: Self)
        ensures
            r.last is None,
    {
        ArtifactCache { last: None }
    }

    /// The path of a tokenizer that may be used. The marker is read only where nothing is known
    /// of these files yet.
    pub fn verify_artifacts(
        &mut self,
        files: &ArtifactFiles,
        read_marker: impl FnOnce() -> Option<String>,
    ) -> (r: Result<String, ArtifactFault>)
        requires
            files.absence() is None && old(self).known(*files) is None && files.worth(None) == Err::<
                (),
                ArtifactFault,
            >(ArtifactFault::UnverifiedModel) ==> read_marker.requires(()),
        ensures
            files.absence() matches Some(fault) ==> r == Err::<String, ArtifactFault>(fault)
                && *final(self) == *old(self),
            files.absence() is None ==> {
                match old(self).known(*files) {
                    Some(worth) => *final(self) == *old(self) && is_path_or_fault(
                        r,
                        files.tokenizer_path@,
                        worth,
                    ),
                    None => {
                        &&& final(self).last is Some
                        &&& files.is_described_by(final(self).last->0.fingerprint)
                        &&& is_path_or_fault(r, files.tokenizer_path@, final(self).last->0.worth)
                        &&& read_with(*files, read_marker, final(self).last->0.worth)
                    },
                }
            },
    {
        let model_len = match files.model_len {
            Some(n) => n,
            None => return Err(ArtifactFault::MissingModel),
        };
        let tokenizer_len = match files.tokenizer_len {
            Some(n) => n,
            None => return Err(ArtifactFault::MissingTokenizer),
        };
        let marker_modified = match files.marker {
            Some(m) => m,
            None => return Err(ArtifactFault::UnverifiedModel),
        };
        let fingerprint = ArtifactFingerprint {
            model_path: files.model_path.clone(),
            model_len,
            tokenizer_path: files.tokenizer_path.clone(),
            tokenizer_len,
            marker_modified,
        };
        if let Some(checked) = &self.last {
            if checked.fingerprint.same(&fingerprint) {
                return match checked.worth {
                    Ok(_) => Ok(files.tokenizer_path.clone()),
                    Err(fault) => Err(fault),
                };
            }
        }
        let worth = if model_len != MODEL_LEN {
            Err(ArtifactFault::InvalidModel)
        } else if tokenizer_len != TOKENIZER_LEN {
            Err(ArtifactFault::InvalidTokenizer)
        } else {
            match read_marker() {
                Some(receipt) => if same_text(receipt.as_str(), VERIFIED_CONTENT) {
                    Ok(())
                } else {
                    Err(ArtifactFault::UnverifiedModel)
                },
                None => Err(ArtifactFault::UnverifiedModel),
            }
        };
        self.last = Some(CheckedArtifacts { fingerprint, worth });
        match worth {
            Ok(_) => Ok(files.tokenizer_path.clone()),
            Err(fault) => Err(fault),
        }
    }
}

/// The path where the artifacts are worth something, the fault where they are not.
pub open spec fn is_path_or_fault(
    r: Result<String, ArtifactFault>,
    path: Seq<char>,
    worth: Result<(), ArtifactFault>,
) -> bool {
    match worth {
        Ok(_) => r is Ok && r->Ok_0@ == path,
        Err(fault) => r == Err::<String, ArtifactFault>(fault),
    }
}

/// `worth` is what the files are worth with some text that the marker's reader may give. The
/// reader is asked only after both lengths are right.
pub open spec fn read_with<F: FnOnce() -> Option<String>>(
    files: ArtifactFiles,
    read_marker: F,
    worth: Result<(), ArtifactFault>,
) -> bool {
    if files.worth(None) == Err::<(), ArtifactFault>(ArtifactFault::UnverifiedModel) {
        exists|receipt: Option<String>|
            #![trigger read_marker.ensures((), receipt)]
            read_marker.ensures((), receipt) && worth == files.worth(
                crate::text::opt_view(receipt),
            )
    } else {
        worth == files.worth(None)
    }
}

/// Where the model directory is.
#[derive(Debug, PartialEq, Eq)]
pub enum ModelDirectory {
    /// The directory itself.
    Given(String),
    /// `Nospacekey`, `models`, `inline-prediction`, one below the other, below this directory.
    Below(String),
}

/// The model directory: the one that the user names, else the one below the local data.
pub fn model_dir(named: Option<String>, local_data: Option<String>) -> (r: Option<ModelDirectory>)
    ensures
        r == (match (named, local_data) {
            (Some(path), _) => Some(ModelDirectory::Given(path)),
            (None, Some(local)) => Some(ModelDirectory::Below(local)),
            (None, None) => None,
        }),
{
    match named {
        Some(path) => Some(ModelDirectory::Given(path)),
        None => match local_data {
            Some(local) => Some(ModelDirectory::Below(local)),
            None => None,
        },
    }
}

/// A tokenizer of the `tokenizers` crate.
#[verifier::external_type_specification]
#[verifier::external_body]
pub struct ExTokenizer(Tokenizer);

/// `Tokenizer::from_bytes` returns on a tokenizer file, and may make this of it: a tokenizer, or
/// nothing where the file holds none. Where the call panics this holds of nothing. What a tokenizer
/// holds is not said; its tables are seeded anew each time.
pub uninterp spec fn loads_as(json: Seq<u8>, made: Option<Tokenizer>) -> bool;

/// `Tokenizer::encode`, asked for special tokens too, never panics on a text, and may give these
/// ids for it, or none where it fails. Where the call can panic this holds of nothing. Not a function
/// of the text: a model may leave out merges at random.
pub uninterp spec fn encodes_as(
    tokenizer: Tokenizer,
    text: Seq<char>,
    ids: Option<Seq<u32>>,
) -> bool;

/// What `Sha256::digest` makes of bytes.
pub uninterp spec fn sha256_of(bytes: Seq<u8>) -> Seq<u8>;

/// Calls `Sha256::digest` and copies the digest out. The digest depends on the bytes alone and is
/// 32 bytes long.
#[verifier::external_body]
fn sha256(bytes: &[u8]) -> (r: Vec<u8>)
    ensures
        r@ == sha256_of(bytes@),
        r@.len() == 32,
{
    Sha256::digest(bytes).to_vec()
}

/// Bytes in lower case hexadecimal digits, two for each.
pub open spec fn hex_text(bytes: Seq<u8>) -> Seq<char> {
    Seq::new(
        2 * bytes.len(),
        |i: int|
            lower_hex(
                if i % 2 == 0 {
                    bytes[i / 2] as int / 16
                } else {
                    bytes[i / 2] as int % 16
                },
            ),
    )
}

/// The SHA-256 digest of bytes, in lower case hexadecimal digits.
pub fn sha256_text(bytes: &[u8]) -> (r: String)
    ensures
        r@ == hex_text(sha256_of(bytes@)),
{
    let digest = sha256(bytes);
    let mut out = String::new();
    let mut i: usize = 0;
    while i < digest.len()
        invariant
            i <= digest@.len(),
            out@ == hex_text(digest@.take(i as int)),
        decreases digest@.len() - i,
    {
        let byte: u32 = digest[i] as u32;
        out.push(hex_of(byte / 16));
        out.push(hex_of(byte % 16));
        i = i + 1;
        assert(out@ =~= hex_text(digest@.take(i as int)));
    }
    assert(digest@.take(i as int) == digest@);
    out
}

/// The digest of the product's tokenizer file, as the marker records it.
pub const TOKENIZER_SHA256: &'static str =
    "955dc1fa623fab38cc92a3f4ee172423ae6d73201c4207569bfdf5626bc733f0";

/// The bytes are the product's tokenizer file.
pub open spec fn is_product_file(json: Seq<u8>) -> bool {
    hex_text(sha256_of(json)) == TOKENIZER_SHA256@
}

/// Whether the bytes are the product's tokenizer file.
pub fn check_product_file(json: &[u8]) -> (r: bool)
    ensures
        r == is_product_file(json@),
{
    same_text(sha256_text(json).as_str(), TOKENIZER_SHA256)
}

/// A tokenizer file can be loaded: `Tokenizer::from_bytes` returns on it, with a tokenizer or
/// without. The product's file is one.
pub open spec fn can_load(json: Seq<u8>) -> bool {
    is_product_file(json) || exists|made: Option<Tokenizer>| loads_as(json, made)
}

/// Calls `Tokenizer::from_bytes` on the contents of a tokenizer file. The result is one that this
/// call may give for these bytes; `None` is its error. Files on which the call panics are left out,
/// such as one with a merge that is longer than every entry of its vocabulary. Of the product's
/// file it is claimed that the call returns.
#[verifier::external_body]
fn load_tokenizer(json: &[u8]) -> (r: Option<Tokenizer>)
    requires
        can_load(json@),
    ensures
        loads_as(json@, r),
{
    Tokenizer::from_bytes(json).ok()
}

/// The longest encoding and the stride that `Tokenizer::get_truncation` tells, where a tokenizer
/// truncates.
pub uninterp spec fn truncation_of(tokenizer: Tokenizer) -> Option<(usize, usize)>;

/// Calls `Tokenizer::get_truncation` and copies the longest encoding and the stride out.
#[verifier::external_body]
fn truncation(tokenizer: &Tokenizer) -> (r: Option<(usize, usize)>)
    ensures
        r == truncation_of(*tokenizer),
{
    tokenizer.get_truncation().map(|limits| (limits.max_length, limits.stride))
}

/// How many tokens `PostProcessor::added_tokens` tells that the post-processor of a tokenizer adds
/// to one text, 0 without a post-processor.
pub uninterp spec fn added_by(tokenizer: Tokenizer) -> usize;

/// Calls `PostProcessor::added_tokens` for one text, on the post-processor that the tokenizer has.
#[verifier::external_body]
fn added_tokens(tokenizer: &Tokenizer) -> (r: usize)
    ensures
        r == added_by(*tokenizer),
{
    tokenizer.get_post_processor().map_or(0, |processor| processor.added_tokens(false))
}

/// A truncation leaves room for the added tokens, and its stride is shorter than what is left.
pub open spec fn truncation_fits(limits: Option<(usize, usize)>, added: usize) -> bool {
    match limits {
        None => true,
        Some((max_length, stride)) => added == max_length || added + stride < max_length,
    }
}

/// Whether a truncation leaves room for the added tokens and its stride is shorter than what is
/// left.
pub fn check_truncation(limits: Option<(usize, usize)>, added: usize) -> (r: bool)
    ensures
        r == truncation_fits(limits, added),
{
    match limits {
        None => true,
        Some((max_length, stride)) => added == max_length || (added < max_length && stride
            < max_length - added),
    }
}

/// The tokenizer of the product's file, with a truncation that fits.
pub open spec fn is_product_tokenizer(tokenizer: Tokenizer) -> bool {
    &&& truncation_fits(truncation_of(tokenizer), added_by(tokenizer))
    &&& exists|json: Seq<u8>| #[trigger]
        loads_as(json, Some(tokenizer)) && is_product_file(json)
}

/// A tokenizer can be asked about a text: `Tokenizer::encode` does not panic on it. The product's
/// tokenizer can be asked about every text.
pub open spec fn can_encode(tokenizer: Tokenizer, text: Seq<char>) -> bool {
    is_product_tokenizer(tokenizer) || exists|ids: Option<Seq<u32>>|
        encodes_as(tokenizer, text, ids)
}

/// Calls `Tokenizer::encode` with special tokens and copies the ids out. The result is one that
/// this call may give for this tokenizer and text; `None` is its error. Nothing is said of the ids
/// themselves, not even that there is one. What the call can panic on is left out, such as a text
/// that is truncated with too long a stride, or a template that names an unknown token.
///
/// Of the product's tokenizer it is claimed that the call panics on no text. The texts 明日の予定は
/// and 今日は朝から雨が降っているので、出かける前に are known to be encoded with it. A template that names
/// an unknown token fails on every text alike, so it has none, and its truncation is tested before
/// it is asked. For other texts the claim rests on the source of the crate alone.
#[verifier::external_body]
fn encoded_ids(tokenizer: &Tokenizer, text: &str) -> (r: Option<Vec<u32>>)
    requires
        can_encode(*tokenizer, text@),
    ensures
        encodes_as(*tokenizer, text@, ids_view(r)),
{
    tokenizer.encode(text, true).ok().map(|encoding| encoding.get_ids().to_vec())
}

/// The view of optional ids.
pub open spec fn ids_view(ids: Option<Vec<u32>>) -> Option<Seq<u32>> {
    match ids {
        Some(v) => Some(v@),
        None => None,
    }
}

/// The longest prompt, in tokens.
pub const MAX_PROMPT_TOKENS: usize = 480;

/// The prompt: the first token and the last ones.
pub open spec fn prompt(ids: Seq<u32>) -> Seq<u32> {
    if ids.len() <= MAX_PROMPT_TOKENS {
        ids
    } else {
        seq![ids[0]] + ids.subrange(ids.len() - (MAX_PROMPT_TOKENS - 1), ids.len() as int)
    }
}

/// Why there is no prompt.
#[derive(Clone, Copy, Debug, PartialEq, Eq, Structural)]
pub enum TokenizeError {
    /// The tokenizer file cannot be read or holds no tokenizer.
    Unavailable,
    /// The tokenizer fails.
    Failed,
    /// There is nothing to go on from.
    EmptyPrompt,
}

/// The prompt that a tokenizer's answer gives.
pub open spec fn prompt_result(ids: Option<Seq<u32>>, r: Result<Vec<u32>, TokenizeError>) -> bool {
    match ids {
        None => r == Err::<Vec<u32>, TokenizeError>(TokenizeError::Failed),
        Some(s) => if s.len() == 0 {
            r == Err::<Vec<u32>, TokenizeError>(TokenizeError::EmptyPrompt)
        } else {
            r is Ok && r->Ok_0@ == prompt(s)
        },
    }
}

/// Cuts a tokenizer's answer down to a prompt.
pub fn prompt_of(ids: Option<Vec<u32>>) -> (r: Result<Vec<u32>, TokenizeError>)
    ensures
        prompt_result(ids_view(ids), r),
{
    let ids = match ids {
        Some(ids) => ids,
        None => return Err(TokenizeError::Failed),
    };
    let len: usize = ids.len();
    if len == 0 {
        return Err(TokenizeError::EmptyPrompt);
    }
    if len <= MAX_PROMPT_TOKENS {
        return Ok(ids);
    }
    let mut cut: Vec<u32> = Vec::new();
    cut.push(ids[0]);
    let first: usize = len - (MAX_PROMPT_TOKENS - 1);
    let mut i: usize = first;
    while i < len
        invariant
            first <= i <= len,
            len == ids@.len(),
            first == len - (MAX_PROMPT_TOKENS - 1),
            cut@ == seq![ids@[0]] + ids@.subrange(first as int, i as int),
        decreases len - i,
    {
        cut.push(ids[i]);
        i = i + 1;
    }
    Ok(cut)
}

/// A prompt keeps the first token and is never longer than the engine takes.
pub proof fn a_prompt_keeps_its_first_token(ids: Seq<u32>)
    requires
        ids.len() > 0,
    ensures
        0 < prompt(ids).len() <= MAX_PROMPT_TOKENS,
        prompt(ids)[0] == ids[0],
        prompt(ids).last() == ids.last(),
        prompt(prompt(ids)) == prompt(ids),
{
}

/// The tokenizer that was loaded last.
pub struct TokenizerCache {
    path: String,
    tokenizer: Tokenizer,
    product: bool,
}

impl TokenizerCache {
    #[verifier::type_invariant]
    spec fn marked(self) -> bool {
        self.product ==> is_product_tokenizer(self.tokenizer)
    }

    /// The path of the file.
    pub closed spec fn path(self) -> Seq<char> {
        self.path@
    }

    /// The tokenizer of the file.
    pub closed spec fn tokenizer(self) -> Tokenizer {
        self.tokenizer
    }

    /// The file was seen to be the product's.
    pub closed spec fn product(self) -> bool {
        self.product
    }
}

/// The tokenizer of a path is at hand.
pub open spec fn at_hand(cache: Option<TokenizerCache>, path: Seq<char>) -> bool {
    cache is Some && cache->0.path() == path
}

/// The tokenizer that answers for a path: the one at hand, where it is of that path, else one that
/// the file at the path may give.
pub open spec fn serves<F: FnOnce() -> Option<Vec<u8>>>(
    cache: Option<TokenizerCache>,
    path: Seq<char>,
    read: F,
    tokenizer: Tokenizer,
) -> bool {
    if at_hand(cache, path) {
        tokenizer == cache->0.tokenizer()
    } else {
        exists|json: Vec<u8>|
            #![trigger read.ensures((), Some(json))]
            read.ensures((), Some(json)) && loads_as(json@, Some(tokenizer))
    }
}

/// What comes of a text and a path. Without a tokenizer, because the file cannot be read or holds
/// none, everything stays as it was. Else the tokenizer of the path is at hand afterwards, and the
/// prompt is that of its answer.
pub open spec fn tokenized<F: FnOnce() -> Option<Vec<u8>>>(
    before: Option<TokenizerCache>,
    after: Option<TokenizerCache>,
    path: Seq<char>,
    read: F,
    text: Seq<char>,
    r: Result<Vec<u32>, TokenizeError>,
) -> bool {
    if r == Err::<Vec<u32>, TokenizeError>(TokenizeError::Unavailable) {
        &&& after == before
        &&& !at_hand(before, path)
        &&& exists|json: Option<Vec<u8>>|
            #![trigger read.ensures((), json)]
            read.ensures((), json) && (json is None || loads_as(json->0@, None))
    } else {
        &&& at_hand(after, path)
        &&& serves(before, path, read, after->0.tokenizer())
        &&& exists|ids: Option<Seq<u32>>|
            #![trigger encodes_as(after->0.tokenizer(), text, ids)]
            encodes_as(after->0.tokenizer(), text, ids) && prompt_result(ids, r)
    }
}

/// The prompt for a text, with the tokenizer of a path. The file is read only where the tokenizer
/// at hand is of another path.
pub fn tokenize_with_path(
    cache: &mut Option<TokenizerCache>,
    path: &str,
    read: impl FnOnce() -> Option<Vec<u8>>,
    context_before: &str,
) -> (r: Result<Vec<u32>, TokenizeError>)
    requires
        at_hand(*old(cache), path@) ==> can_encode((*old(cache))->0.tokenizer(), context_before@),
        !at_hand(*old(cache), path@) ==> read.requires(()),
        !at_hand(*old(cache), path@) ==> forall|json: Vec<u8>|
            #![trigger read.ensures((), Some(json))]
            read.ensures((), Some(json)) ==> can_load(json@) && forall|made: Tokenizer| #[trigger]
                loads_as(json@, Some(made)) ==> can_encode(made, context_before@),
    ensures
        tokenized(*old(cache), *final(cache), path@, read, context_before@, r),
{
    let cached = match cache {
        Some(cached) => same_text(cached.path.as_str(), path),
        None => false,
    };
    if !cached {
        let json = match read() {
            Some(json) => json,
            None => return Err(TokenizeError::Unavailable),
        };
        let tokenizer = match load_tokenizer(json.as_slice()) {
            Some(tokenizer) => tokenizer,
            None => return Err(TokenizeError::Unavailable),
        };
        *cache = Some(TokenizerCache { path: path.to_owned(), tokenizer, product: false });
    }
    match cache {
        Some(cached) => prompt_of(encoded_ids(&cached.tokenizer, context_before)),
        None => Err(TokenizeError::Unavailable),
    }
}

/// What was read is not the product's file, or its tokenizer has a truncation that does not fit.
pub open spec fn is_no_product(json: Seq<u8>) -> bool {
    !is_product_file(json) || exists|made: Tokenizer| #[trigger]
        loads_as(json, Some(made)) && !is_product_tokenizer(made)
}

/// The prompt for a text, with the tokenizer of a path, for callers that know nothing of the file:
/// `None` where it was not seen to be the product's, and nothing was asked of it.
pub fn tokenize_product(
    cache: &mut Option<TokenizerCache>,
    path: &str,
    read: impl FnOnce() -> Option<Vec<u8>>,
    context_before: &str,
) -> (r: Option<Result<Vec<u32>, TokenizeError>>)
    requires
        !at_hand(*old(cache), path@) ==> read.requires(()),
    ensures
        match r {
            None => {
                &&& *final(cache) == *old(cache)
                &&& if at_hand(*old(cache), path@) {
                    !(*old(cache))->0.product()
                } else {
                    exists|json: Vec<u8>|
                        #![trigger read.ensures((), Some(json))]
                        read.ensures((), Some(json)) && is_no_product(json@)
                }
            },
            Some(result) => {
                &&& at_hand(*old(cache), path@) ==> (*old(cache))->0.product()
                &&& tokenized(
                    *old(cache),
                    *final(cache),
                    path@,
                    read,
                    context_before@,
                    result,
                )
            },
        },
{
    let cached = match cache {
        Some(cached) => if same_text(cached.path.as_str(), path) {
            Some(cached.product)
        } else {
            None
        },
        None => None,
    };
    match cached {
        Some(product) => {
            if !product {
                return None;
            }
        },
        None => {
            let json = match read() {
                Some(json) => json,
                None => return Some(Err(TokenizeError::Unavailable)),
            };
            if !check_product_file(json.as_slice()) {
                return None;
            }
            let tokenizer = match load_tokenizer(json.as_slice()) {
                Some(tokenizer) => tokenizer,
                None => return Some(Err(TokenizeError::Unavailable)),
            };
            if !check_truncation(truncation(&tokenizer), added_tokens(&tokenizer)) {
                return None;
            }
            *cache = Some(TokenizerCache { path: path.to_owned(), tokenizer, product: true });
        },
    }
    if let Some(ready) = cache {
        proof {
            use_type_invariant(&*ready);
        }
    }
    let nothing = || -> (o: Option<Vec<u8>>)
        ensures
            o is None,
        { None };
    Some(tokenize_with_path(cache, path, nothing, context_before))
}

/// Why the engine was not asked.
#[derive(Debug, PartialEq, Eq)]
pub enum EngineIdentityError {
    Io(IoFault),
    /// The engine opens no session.
    Protocol,
    /// The engine is of another build.
    Mismatch { actual_proto: Option<u32>, actual_boot: Option<String> },
}

/// The engine is of our build.
pub open spec fn same_build(
    proto: Option<u32>,
    boot: Option<String>,
    own_proto: u32,
    own_boot: Seq<char>,
) -> bool {
    proto == Some(own_proto) && crate::text::opt_view(boot) == Some(own_boot)
}

/// The session that an answer opens, if the engine is of our build.
pub open spec fn verified_session(reply: Reply, own_proto: u32, own_boot: Seq<char>) -> Result<
    i64,
    EngineIdentityError,
> {
    match reply {
        Ok(Response::Session { session, proto, boot }) => if same_build(
            proto,
            boot,
            own_proto,
            own_boot,
        ) {
            Ok(session)
        } else {
            Err(EngineIdentityError::Mismatch { actual_proto: proto, actual_boot: boot })
        },
        Ok(_) => Err(EngineIdentityError::Protocol),
        Err(fault) => Err(EngineIdentityError::Io(fault)),
    }
}

/// Opens a session, and refuses one of another build. Nothing but the opening is sent.
pub fn prediction_session(
    send: impl FnOnce(&Request) -> Reply,
    own_proto: u32,
    own_boot: &str,
) -> (r: Result<i64, EngineIdentityError>)
    requires
        send.requires((&Request::StartSession,)),
    ensures
        exists|reply: Reply|
            #![trigger send.ensures((&Request::StartSession,), reply)]
            send.ensures((&Request::StartSession,), reply) && r == verified_session(
                reply,
                own_proto,
                own_boot@,
            ),
{
    match send(&Request::StartSession) {
        Ok(Response::Session { session, proto, boot }) => {
            let same = match (&proto, &boot) {
                (Some(p), Some(b)) => *p == own_proto && same_text(b.as_str(), own_boot),
                _ => false,
            };
            if same {
                Ok(session)
            } else {
                Err(EngineIdentityError::Mismatch { actual_proto: proto, actual_boot: boot })
            }
        },
        Ok(_) => Err(EngineIdentityError::Protocol),
        Err(fault) => Err(EngineIdentityError::Io(fault)),
    }
}

/// What an answer to a prediction request means. An answer to another request means nothing.
pub open spec fn interpreted(seq: u64, reply: Reply) -> IpcPredictionResult {
    match reply {
        Ok(Response::Prediction { seq: echoed, text }) => if echoed == seq {
            IpcPredictionResult::Prediction(text)
        } else {
            IpcPredictionResult::Failed
        },
        Ok(Response::PredictionUnavailable { seq: echoed, state }) => if echoed == seq {
            IpcPredictionResult::Unavailable(state)
        } else {
            IpcPredictionResult::Failed
        },
        _ => IpcPredictionResult::Failed,
    }
}

/// The outcome that an answer gives.
pub fn interpret_response(seq: u64, response: Response, duration_ms: u128) -> (r:
    IpcPredictionOutcome)
    ensures
        r == (IpcPredictionOutcome { seq, result: interpreted(seq, Ok(response)), duration_ms }),
{
    let result = match response {
        Response::Prediction { seq: echoed, text } => if echoed == seq {
            IpcPredictionResult::Prediction(text)
        } else {
            IpcPredictionResult::Failed
        },
        Response::PredictionUnavailable { seq: echoed, state } => if echoed == seq {
            IpcPredictionResult::Unavailable(state)
        } else {
            IpcPredictionResult::Failed
        },
        _ => IpcPredictionResult::Failed,
    };
    IpcPredictionOutcome { seq, result, duration_ms }
}

/// The longest time that the connection may take, in milliseconds.
pub const CONNECT_BUDGET_MS: u64 = 75;

/// What the worker of a prediction does next.
#[derive(Debug, PartialEq, Eq)]
pub enum WorkerAction {
    /// Look for the artifacts.
    CheckArtifacts,
    /// Make a prompt with the tokenizer at the path.
    Tokenize { path: String, context_before: String },
    /// Open a connection. What follows has to be done within the request's time, counted from now.
    Connect { budget_ms: u64, token_ids: Vec<u32> },
    /// Open a session on the connection.
    StartSession { token_ids: Vec<u32> },
    /// Ask the engine.
    Ask(Request),
    /// Leave the outcome in the slot.
    Complete(IpcPredictionOutcome),
    /// Nobody waits any more.
    Stop,
}

/// One request on its way through the worker.
pub struct PredictionJob {
    pub seq: u64,
    pub timeout_ms: u64,
}

impl PredictionJob {
    /// The job of a request.
    pub fn new(request: &PredictionRequest, timeout_ms: u64) -> (r: Self)
        ensures
            r == (PredictionJob { seq: request.seq, timeout_ms }),
    {
        PredictionJob { seq: request.seq, timeout_ms }
    }

    /// The end of this request.
    pub open spec fn ends_with(self, result: IpcPredictionResult, duration_ms: u128) -> WorkerAction {
        WorkerAction::Complete(IpcPredictionOutcome { seq: self.seq, result, duration_ms })
    }

    /// The end of this request for want of something.
    pub open spec fn ends_unavailable(
        self,
        action: WorkerAction,
        state: Seq<char>,
        duration_ms: u128,
    ) -> bool {
        action matches WorkerAction::Complete(outcome) && outcome.seq == self.seq
            && outcome.duration_ms == duration_ms && outcome.result is Unavailable
            && outcome.result->Unavailable_0@ == state
    }

    fn end(&self, result: IpcPredictionResult, duration_ms: u128) -> (r: WorkerAction)
        ensures
            r == self.ends_with(result, duration_ms),
    {
        WorkerAction::Complete(IpcPredictionOutcome { seq: self.seq, result, duration_ms })
    }

    /// The worker runs.
    pub fn started(&self, cancelled: bool) -> (r: WorkerAction)
        ensures
            r == (if cancelled {
                WorkerAction::Stop
            } else {
                WorkerAction::CheckArtifacts
            }),
    {
        if cancelled {
            WorkerAction::Stop
        } else {
            WorkerAction::CheckArtifacts
        }
    }

    /// The artifacts were looked for; without a model directory the model is missing.
    pub fn artifacts_checked(
        &self,
        checked: Option<Result<String, ArtifactFault>>,
        context_before: String,
        cancelled: bool,
        elapsed_ms: u128,
    ) -> (r: WorkerAction)
        ensures
            match checked {
                None => self.ends_unavailable(r, ArtifactFault::MissingModel.name(), elapsed_ms),
                Some(Err(fault)) => self.ends_unavailable(r, fault.name(), elapsed_ms),
                Some(Ok(path)) => r == (if cancelled {
                    WorkerAction::Stop
                } else {
                    WorkerAction::Tokenize { path, context_before }
                }),
            },
    {
        let checked = match checked {
            Some(checked) => checked,
            None => Err(ArtifactFault::MissingModel),
        };
        match checked {
            Ok(path) => if cancelled {
                WorkerAction::Stop
            } else {
                WorkerAction::Tokenize { path, context_before }
            },
            Err(fault) => self.end(
                IpcPredictionResult::Unavailable(fault.state().to_owned()),
                elapsed_ms,
            ),
        }
    }

    /// The prompt was made. Any fault of the tokenizer counts as an invalid one.
    pub fn tokenized(
        &self,
        ids: Result<Vec<u32>, TokenizeError>,
        cancelled: bool,
        elapsed_ms: u128,
    ) -> (r: WorkerAction)
        ensures
            match ids {
                Ok(token_ids) => r == (if cancelled {
                    WorkerAction::Stop
                } else {
                    WorkerAction::Connect {
                        budget_ms: if self.timeout_ms < CONNECT_BUDGET_MS {
                            self.timeout_ms
                        } else {
                            CONNECT_BUDGET_MS
                        },
                        token_ids,
                    }
                }),
                Err(_) => self.ends_unavailable(
                    r,
                    ArtifactFault::InvalidTokenizer.name(),
                    elapsed_ms,
                ),
            },
    {
        match ids {
            Ok(token_ids) => if cancelled {
                WorkerAction::Stop
            } else {
                let budget_ms: u64 = if self.timeout_ms < CONNECT_BUDGET_MS {
                    self.timeout_ms
                } else {
                    CONNECT_BUDGET_MS
                };
                WorkerAction::Connect { budget_ms, token_ids }
            },
            Err(_) => self.end(
                IpcPredictionResult::Unavailable(ArtifactFault::InvalidTokenizer.state().to_owned()),
                elapsed_ms,
            ),
        }
    }

    /// The connection was tried.
    pub fn connected(&self, ok: bool, token_ids: Vec<u32>, elapsed_ms: u128) -> (r: WorkerAction)
        ensures
            r == (if ok {
                WorkerAction::StartSession { token_ids }
            } else {
                self.ends_with(IpcPredictionResult::Failed, elapsed_ms)
            }),
    {
        if ok {
            WorkerAction::StartSession { token_ids }
        } else {
            self.end(IpcPredictionResult::Failed, elapsed_ms)
        }
    }

    /// The session was opened or refused.
    pub fn session_started(
        &self,
        session: Result<i64, EngineIdentityError>,
        token_ids: Vec<u32>,
        elapsed_ms: u128,
    ) -> (r: WorkerAction)
        ensures
            r == (match session {
                Ok(session) => WorkerAction::Ask(
                    Request::Predict { session, seq: self.seq, token_ids },
                ),
                Err(EngineIdentityError::Mismatch { actual_proto, actual_boot }) => self.ends_with(
                    IpcPredictionResult::VersionMismatch { actual_proto, actual_boot },
                    elapsed_ms,
                ),
                Err(_) => self.ends_with(IpcPredictionResult::Failed, elapsed_ms),
            }),
    {
        match session {
            Ok(session) => WorkerAction::Ask(Request::Predict { session, seq: self.seq, token_ids }),
            Err(EngineIdentityError::Mismatch { actual_proto, actual_boot }) => self.end(
                IpcPredictionResult::VersionMismatch { actual_proto, actual_boot },
                elapsed_ms,
            ),
            Err(_) => self.end(IpcPredictionResult::Failed, elapsed_ms),
        }
    }

    /// The engine answered or did not.
    pub fn answered(&self, reply: Reply, elapsed_ms: u128) -> (r: WorkerAction)
        ensures
            r == self.ends_with(interpreted(self.seq, reply), elapsed_ms),
    {
        match reply {
            Ok(response) => WorkerAction::Complete(
                interpret_response(self.seq, response, elapsed_ms),
            ),
            Err(_) => self.end(IpcPredictionResult::Failed, elapsed_ms),
        }
    }
}

/// An engine of another build is not asked for a prediction: its session is refused, and a job
/// with a refused session ends.
pub proof fn another_build_is_never_asked(
    session: i64,
    proto: Option<u32>,
    boot: Option<String>,
    own_proto: u32,
    own_boot: Seq<char>,
)
    requires
        !same_build(proto, boot, own_proto, own_boot),
    ensures
        verified_session(Ok(Response::Session { session, proto, boot }), own_proto, own_boot)
            is Err,
{
}

/// A slot that was given up never holds an outcome that came later.
pub proof fn a_cancelled_slot_stays_as_it_is(slot: PredictionSlot, outcome: IpcPredictionOutcome)
    requires
        slot.cancelled,
    ensures
        slot.completed(outcome) == slot,
{
}

/// A slot that is waited for holds the outcome that came last.
pub proof fn a_slot_holds_what_came_last(
    slot: PredictionSlot,
    first: IpcPredictionOutcome,
    last: IpcPredictionOutcome,
)
    requires
        !slot.cancelled,
    ensures
        slot.completed(last).outcome == Some(last),
        slot.completed(first).completed(last) == slot.completed(last),
        !slot.completed(last).cancelled,
{
}

/// Every fault has a name of its own.
pub proof fn every_fault_has_its_name(a: ArtifactFault, b: ArtifactFault)
    ensures
        ArtifactFault::MissingModel.name() == "missing_model"@,
        ArtifactFault::MissingTokenizer.name() == "missing_tokenizer"@,
        ArtifactFault::UnverifiedModel.name() == "unverified_model"@,
        ArtifactFault::ArtifactCacheFailed.name() == "artifact_cache_failed"@,
        ArtifactFault::InvalidModel.name() == "invalid_model"@,
        ArtifactFault::InvalidTokenizer.name() == "invalid_tokenizer"@,
        a.name() == b.name() ==> a == b,
{
    reveal_strlit("missing_model");
    reveal_strlit("missing_tokenizer");
    reveal_strlit("unverified_model");
    reveal_strlit("artifact_cache_failed");
    reveal_strlit("invalid_model");
    reveal_strlit("invalid_tokenizer");
    if a.name() == b.name() {
        assert(a.name().len() == b.name().len());
        assert(a.name()[0] == b.name()[0]);
    }
}

/// A fingerprint is the same exactly if nothing that it tells differs; it is that of the files that
/// it describes.
pub proof fn a_fingerprint_tells_all(
    a: ArtifactFingerprint,
    b: ArtifactFingerprint,
    files: ArtifactFiles,
)
    ensures
        a.matches_fingerprint(a),
        a.matches_fingerprint(b) ==> b.matches_fingerprint(a),
        a.model_path@ != b.model_path@ || a.model_len != b.model_len || a.tokenizer_path@
            != b.tokenizer_path@ || a.tokenizer_len != b.tokenizer_len || a.marker_modified
            != b.marker_modified ==> !a.matches_fingerprint(b),
        files.is_described_by(a) && files.is_described_by(b) ==> a.matches_fingerprint(b),
        files.is_described_by(a) && a.matches_fingerprint(b) ==> files.is_described_by(b),
        files.is_described_by(a) ==> files.model_len == Some(a.model_len) && files.tokenizer_len
            == Some(a.tokenizer_len) && files.marker == Some(a.marker_modified),
        files.is_described_by(a) ==> files.model_path@ == a.model_path@ && files.tokenizer_path@
            == a.tokenizer_path@,
{
}

/// What is not there is told, the model before the tokenizer before the marker.
pub proof fn what_is_missing_is_told(files: ArtifactFiles)
    ensures
        files.absence() is None <==> files.model_len is Some && files.tokenizer_len is Some
            && files.marker is Some,
        files.model_len is None ==> files.absence() == Some(ArtifactFault::MissingModel),
        files.model_len is Some && files.tokenizer_len is None ==> files.absence() == Some(
            ArtifactFault::MissingTokenizer,
        ),
        files.model_len is Some && files.tokenizer_len is Some && files.marker is None
            ==> files.absence() == Some(ArtifactFault::UnverifiedModel),
{
}

/// Files are worth something exactly if both have the right length and the marker says that their
/// hashes are right; what is wrong is told.
pub proof fn only_verified_files_are_worth_something(
    files: ArtifactFiles,
    receipt: Option<Seq<char>>,
)
    ensures
        files.worth(receipt) is Ok <==> files.model_len == Some(164257184u64) && files.tokenizer_len
            == Some(6416433u64) && receipt == Some(
            "schema=1\nmodel_sha256=191f2fdf41a6f64f00ec6b4fcc39ec6164bb13b41d3609ac8f5b2b6149a23a6d\ntokenizer_sha256=955dc1fa623fab38cc92a3f4ee172423ae6d73201c4207569bfdf5626bc733f0\n"@,
        ),
        files.worth(receipt) == Err::<(), ArtifactFault>(ArtifactFault::InvalidModel)
            <==> files.model_len != Some(164257184u64),
        files.worth(receipt) == Err::<(), ArtifactFault>(ArtifactFault::InvalidTokenizer)
            <==> files.model_len == Some(164257184u64) && files.tokenizer_len != Some(6416433u64),
        files.worth(None) is Err,
{
}

/// Files are looked into once: a cache that looked at them knows what they are worth, and of other
/// files it knows nothing.
pub proof fn files_are_looked_into_once(
    fingerprint: ArtifactFingerprint,
    worth: Result<(), ArtifactFault>,
    files: ArtifactFiles,
)
    ensures
        files.is_described_by(fingerprint) ==> (ArtifactCache {
            last: Some(CheckedArtifacts { fingerprint, worth }),
        }).known(files) == Some(worth),
        !files.is_described_by(fingerprint) ==> (ArtifactCache {
            last: Some(CheckedArtifacts { fingerprint, worth }),
        }).known(files) is None,
        (ArtifactCache { last: None }).known(files) is None,
{
}

/// A path is given exactly where the files are worth something, and it is the path that was asked
/// for; else the fault is given.
pub proof fn a_path_is_given_for_good_files(
    r: Result<String, ArtifactFault>,
    path: Seq<char>,
    fault: ArtifactFault,
)
    ensures
        is_path_or_fault(r, path, Ok(())) <==> r is Ok && r->Ok_0@ == path,
        is_path_or_fault(r, path, Err(fault)) <==> r is Err && r->Err_0 == fault,
{
}

/// The marker decides only over files of the right lengths; with them it is what a reader gave that
/// decides.
pub proof fn the_marker_decides_last<F: FnOnce() -> Option<String>>(
    files: ArtifactFiles,
    read_marker: F,
    worth: Result<(), ArtifactFault>,
)
    requires
        read_with(files, read_marker, worth),
    ensures
        files.model_len != Some(164257184u64) ==> worth == Err::<(), ArtifactFault>(
            ArtifactFault::InvalidModel,
        ),
        files.model_len == Some(164257184u64) && files.tokenizer_len != Some(6416433u64) ==> worth
            == Err::<(), ArtifactFault>(ArtifactFault::InvalidTokenizer),
        worth is Ok ==> exists|receipt: String|
            #![trigger read_marker.ensures((), Some(receipt))]
            read_marker.ensures((), Some(receipt)) && receipt@ == VERIFIED_CONTENT@,
        files.model_len == Some(164257184u64) && files.tokenizer_len == Some(6416433u64) && worth
            is Err ==> worth == Err::<(), ArtifactFault>(ArtifactFault::UnverifiedModel) && exists|
            receipt: Option<String>,
        |
            #![trigger read_marker.ensures((), receipt)]
            read_marker.ensures((), receipt) && (receipt is None || receipt->0@ != VERIFIED_CONTENT@),
{
    if files.worth(None) == Err::<(), ArtifactFault>(ArtifactFault::UnverifiedModel) {
        let receipt = choose|receipt: Option<String>|
            #![trigger read_marker.ensures((), receipt)]
            read_marker.ensures((), receipt) && worth == files.worth(
                crate::text::opt_view(receipt),
            );
        assert(read_marker.ensures((), receipt));
        if receipt is Some {
            assert(read_marker.ensures((), Some(receipt->0)));
        }
    }
}

/// Bytes are written in order, the higher half of each first.
pub proof fn bytes_are_written_in_order(bytes: Seq<u8>, i: int)
    ensures
        hex_text(bytes).len() == 2 * bytes.len(),
        0 <= i < bytes.len() ==> hex_text(bytes)[2 * i] == lower_hex(bytes[i] as int / 16),
        0 <= i < bytes.len() ==> hex_text(bytes)[2 * i + 1] == lower_hex(bytes[i] as int % 16),
        is_product_file(bytes) <==> hex_text(sha256_of(bytes))
            == "955dc1fa623fab38cc92a3f4ee172423ae6d73201c4207569bfdf5626bc733f0"@,
{
}

/// A truncation fits where all the room is for added tokens, or where the stride is shorter than
/// what they leave; without a truncation everything fits.
pub proof fn a_truncation_leaves_room(max_length: usize, stride: usize, added: usize)
    ensures
        truncation_fits(None, added),
        added > max_length ==> !truncation_fits(Some((max_length, stride)), added),
        added == max_length ==> truncation_fits(Some((max_length, stride)), added),
        added < max_length ==> (truncation_fits(Some((max_length, stride)), added) <==> stride
            < max_length - added),
{
}

/// The product's tokenizer comes from the product's file and truncates with room; and the product's
/// file and tokenizer can always be used.
pub proof fn the_product_can_be_used(json: Seq<u8>, tokenizer: Tokenizer, text: Seq<char>)
    ensures
        is_product_file(json) ==> can_load(json),
        is_product_tokenizer(tokenizer) ==> can_encode(tokenizer, text),
        is_product_tokenizer(tokenizer) ==> truncation_fits(
            truncation_of(tokenizer),
            added_by(tokenizer),
        ),
        is_product_file(json) && loads_as(json, Some(tokenizer)) && truncation_fits(
            truncation_of(tokenizer),
            added_by(tokenizer),
        ) ==> is_product_tokenizer(tokenizer),
        is_product_file(json) && loads_as(json, Some(tokenizer)) && !truncation_fits(
            truncation_of(tokenizer),
            added_by(tokenizer),
        ) ==> is_no_product(json),
        !is_product_file(json) ==> is_no_product(json),
{
}

/// A prompt of at most 480 tokens is whole; a longer one is its first token and its last 479.
pub proof fn a_prompt_is_its_beginning_and_its_end(ids: Seq<u32>, i: int)
    ensures
        ids.len() <= 480 ==> prompt(ids) == ids,
        ids.len() > 480 ==> prompt(ids).len() == 480 && prompt(ids)[0] == ids[0],
        ids.len() > 480 && 1 <= i < 480 ==> prompt(ids)[i] == ids[ids.len() - 480 + i],
{
}

/// A tokenizer's answer is a prompt exactly if there is a token in it, and each failure is told.
pub proof fn an_answer_with_tokens_is_a_prompt(
    ids: Seq<u32>,
    v: Vec<u32>,
    r: Result<Vec<u32>, TokenizeError>,
)
    ensures
        prompt_result(None, r) ==> r is Err && r->Err_0 == TokenizeError::Failed,
        ids.len() == 0 && prompt_result(Some(ids), r) ==> r is Err && r->Err_0
            == TokenizeError::EmptyPrompt,
        0 < ids.len() && prompt_result(Some(ids), r) ==> r is Ok && r->Ok_0@.len() > 0
            && r->Ok_0@[0] == ids[0] && r->Ok_0@.last() == ids.last(),
        0 < ids.len() <= 480 && prompt_result(Some(ids), r) ==> r->Ok_0@ == ids,
        ids_view(Some(v)) == Some(v@) && ids_view(None) is None,
{
}

/// A tokenizer at hand answers for its path without a look at the file; another one comes out of
/// the file.
pub proof fn a_tokenizer_at_hand_answers<F: FnOnce() -> Option<Vec<u8>>>(
    cache: TokenizerCache,
    path: Seq<char>,
    read: F,
    tokenizer: Tokenizer,
)
    ensures
        at_hand(Some(cache), cache.path()),
        path != cache.path() ==> !at_hand(Some(cache), path),
        !at_hand(None, path),
        serves(Some(cache), cache.path(), read, tokenizer) <==> tokenizer == cache.tokenizer(),
        path != cache.path() && serves(Some(cache), path, read, tokenizer) ==> exists|json: Vec<u8>|
            #![trigger read.ensures((), Some(json))]
            read.ensures((), Some(json)) && loads_as(json@, Some(tokenizer)),
        serves(None, path, read, tokenizer) ==> exists|json: Vec<u8>|
            #![trigger read.ensures((), Some(json))]
            read.ensures((), Some(json)) && loads_as(json@, Some(tokenizer)),
{
}

/// A text gets a prompt of the tokenizer of its path, which is at hand afterwards; without a
/// tokenizer nothing changes. A tokenizer at hand is never unavailable.
pub proof fn a_prompt_comes_from_its_path<F: FnOnce() -> Option<Vec<u8>>>(
    before: Option<TokenizerCache>,
    after: Option<TokenizerCache>,
    path: Seq<char>,
    read: F,
    text: Seq<char>,
    r: Result<Vec<u32>, TokenizeError>,
)
    requires
        tokenized(before, after, path, read, text, r),
    ensures
        before is Some && before->0.path() == path ==> after is Some && after->0.path() == path
            && after->0.tokenizer() == before->0.tokenizer(),
        r is Ok ==> after is Some && after->0.path() == path && r->Ok_0@.len() > 0 && exists|
            ids: Seq<u32>,
        | #[trigger]
            encodes_as(after->0.tokenizer(), text, Some(ids)) && r->Ok_0@ == prompt(ids),
        r is Err && r->Err_0 == TokenizeError::Unavailable ==> after == before,
        r is Err && r->Err_0 == TokenizeError::Failed ==> encodes_as(
            after->0.tokenizer(),
            text,
            None,
        ),
        r is Err && r->Err_0 == TokenizeError::EmptyPrompt ==> encodes_as(
            after->0.tokenizer(),
            text,
            Some(Seq::empty()),
        ),
        after != before ==> after is Some && after->0.path() == path,
{
    if r != Err::<Vec<u32>, TokenizeError>(TokenizeError::Unavailable) {
        let ids = choose|ids: Option<Seq<u32>>|
            #![trigger encodes_as(after->0.tokenizer(), text, ids)]
            encodes_as(after->0.tokenizer(), text, ids) && prompt_result(ids, r);
        assert(encodes_as(after->0.tokenizer(), text, ids));
        if ids is Some {
            assert(encodes_as(after->0.tokenizer(), text, Some(ids->0)));
            if (ids->0).len() == 0 {
                assert(ids->0 =~= Seq::<u32>::empty());
            }
        }
    }
}

/// A session is taken from an engine that tells our number and our build, and from no other; what
/// it told is handed on.
pub proof fn a_session_is_of_our_build(
    session: i64,
    proto: Option<u32>,
    boot: Option<String>,
    own_proto: u32,
    own_boot: Seq<char>,
    fault: IoFault,
    other: Response,
)
    ensures
        ({
            let r = verified_session(
                Ok(Response::Session { session, proto, boot }),
                own_proto,
                own_boot,
            );
            &&& r is Ok <==> proto == Some(own_proto) && boot is Some && boot->0@ == own_boot
            &&& r is Ok ==> r->Ok_0 == session
            &&& r is Err ==> r->Err_0 is Mismatch && r->Err_0->actual_proto == proto
                && r->Err_0->actual_boot == boot
        }),
        !(other is Session) ==> verified_session(Ok(other), own_proto, own_boot) is Err
            && verified_session(Ok(other), own_proto, own_boot)->Err_0 is Protocol,
        verified_session(Err(fault), own_proto, own_boot) is Err,
        verified_session(Err(fault), own_proto, own_boot)->Err_0 is Io,
{
}

/// A prediction is the text that the engine gave for this very request; an answer to another
/// request, or none, is a failure.
pub proof fn a_prediction_answers_its_request(
    seq: u64,
    echoed: u64,
    text: String,
    state: String,
    fault: IoFault,
    job: PredictionJob,
    result: IpcPredictionResult,
    action: WorkerAction,
    duration_ms: u128,
)
    ensures
        interpreted(seq, Ok(Response::Prediction { seq, text })) == IpcPredictionResult::Prediction(
            text,
        ),
        interpreted(seq, Ok(Response::PredictionUnavailable { seq, state }))
            == IpcPredictionResult::Unavailable(state),
        echoed != seq ==> interpreted(seq, Ok(Response::Prediction { seq: echoed, text }))
            == IpcPredictionResult::Failed,
        echoed != seq ==> interpreted(
            seq,
            Ok(Response::PredictionUnavailable { seq: echoed, state }),
        ) == IpcPredictionResult::Failed,
        interpreted(seq, Err(fault)) == IpcPredictionResult::Failed,
        job.ends_with(result, duration_ms) is Complete,
        ({
            let outcome = job.ends_with(result, duration_ms)->Complete_0;
            &&& outcome.seq == job.seq && outcome.result == result
            &&& outcome.duration_ms == duration_ms
        }),
        job.ends_unavailable(action, state@, duration_ms) ==> action is Complete
            && action->Complete_0.seq == job.seq && action->Complete_0.duration_ms == duration_ms
            && action->Complete_0.result is Unavailable
            && action->Complete_0.result->Unavailable_0@ == state@,
        job.ends_unavailable(
            job.ends_with(IpcPredictionResult::Unavailable(state), duration_ms),
            state@,
            duration_ms,
        ),
{
}

/// A tokenizer is the product's only where the product's file gave it; and the product's file is
/// refused only where it can give a tokenizer whose truncation does not fit.
pub proof fn only_the_products_file_gives_the_products_tokenizer(
    json: Seq<u8>,
    tokenizer: Tokenizer,
)
    ensures
        is_product_tokenizer(tokenizer) ==> exists|file: Seq<u8>| #[trigger]
            loads_as(file, Some(tokenizer)) && hex_text(sha256_of(file))
                == "955dc1fa623fab38cc92a3f4ee172423ae6d73201c4207569bfdf5626bc733f0"@,
        is_no_product(json) && is_product_file(json) ==> exists|made: Tokenizer| #[trigger]
            loads_as(json, Some(made)) && !truncation_fits(truncation_of(made), added_by(made)),
{
    if is_product_tokenizer(tokenizer) {
        let file = choose|file: Seq<u8>| #[trigger]
            loads_as(file, Some(tokenizer)) && is_product_file(file);
        assert(loads_as(file, Some(tokenizer)));
    }
    if is_no_product(json) && is_product_file(json) {
        let made = choose|made: Tokenizer| #[trigger]
            loads_as(json, Some(made)) && !is_product_tokenizer(made);
        assert(loads_as(json, Some(made)));
    }
}

/// The artifacts are known by their names, lengths and hashes; a connection takes a part of the time
/// that a prediction has.
pub proof fn the_artifacts_are_known_by_name()
    ensures
        MODEL_FILENAME@ == "llm-jp-3-150m-q8_0-c060ca9.gguf"@,
        TOKENIZER_FILENAME@ == "tokenizer.json"@,
        VERIFIED_FILENAME@ == "VERIFIED"@,
        MODEL_LEN == 164257184 && TOKENIZER_LEN == 6416433,
        VERIFIED_CONTENT@
            == "schema=1\nmodel_sha256=191f2fdf41a6f64f00ec6b4fcc39ec6164bb13b41d3609ac8f5b2b6149a23a6d\ntokenizer_sha256=955dc1fa623fab38cc92a3f4ee172423ae6d73201c4207569bfdf5626bc733f0\n"@,
        TOKENIZER_SHA256@
            == "955dc1fa623fab38cc92a3f4ee172423ae6d73201c4207569bfdf5626bc733f0"@,
        MAX_PROMPT_TOKENS == 480,
        CONNECT_BUDGET_MS == 75,
{
}

} // verus!
