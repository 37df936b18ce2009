//! The validated echo: its outcome, its configuration, the shared
//! cancellation signal, and the pipeline that runs the two cancellation
//! checkpoints around its one suspension point before validating.

use crate::error::{
    hash_text, preview_of, TemplateError, TemplateErrorView, TemplateResult, MAX_INPUT_SIZE,
};
use std::sync::atomic::{AtomicBool, Ordering};
use std::sync::Arc;
use vstd::prelude::*;
use vstd::std_specs::iter::IteratorSpec;
use vstd::utf8::encode_utf8;

verus! {

/// Result of an echo operation with metadata.
#[derive(Debug, Clone, PartialEq)]
pub struct EchoResult {
    /// The echoed text.
    pub text: String,
    /// Length of the text in UTF-8 bytes.
    pub length: u32,
    /// Unix timestamp, in seconds, when the operation completed.
    pub timestamp: u64,
    /// Optional hash for debugging.
    pub hash: Option<String>,
}

/// Number of bytes in the UTF-8 encoding of a text.
pub open spec fn utf8_len(s: Seq<char>) -> nat {
    encode_utf8(s).len()
}

/// The byte length of a text.
pub fn byte_len(s: &str) -> (r: usize)
    ensures
        r == utf8_len(s@),
{
    s.as_bytes().len()
}

/// Relies on `SystemTime::now` and `SystemTime::duration_since(UNIX_EPOCH)`:
/// the whole seconds elapsed since the epoch, or `None` when the clock reads
/// earlier than the epoch.
#[verifier::external_body]
fn unix_time_secs() -> (r: Option<u64>) {
    match std::time::SystemTime::now().duration_since(std::time::UNIX_EPOCH) {
        Ok(d) => Some(d.as_secs()),
        Err(_) => None,
    }
}

impl EchoResult {
    /// Creates an outcome for `text`, stamped with the current time; a clock
    /// that reads before the epoch gives the timestamp 0.
    pub fn new(text: String) -> (r: Self)
        ensures
            r.text@ == text@,
            r.length as nat == utf8_len(text@) % 0x1_0000_0000,
            r.hash is None,
    {
        let size = byte_len(text.as_str()) as u64;
        let length = (size % 0x1_0000_0000) as u32;
        let timestamp = match unix_time_secs() {
            Some(t) => t,
            None => 0,
        };
        EchoResult { text, length, timestamp, hash: None }
    }

    /// Attaches a debugging hash to the outcome.
    pub fn with_hash(self, hash: String) -> (r: Self)
        ensures
            r.text@ == self.text@,
            r.length == self.length,
            r.timestamp == self.timestamp,
            r.hash is Some,
            r.hash->Some_0@ == hash@,
    {
        EchoResult { hash: Some(hash), ..self }
    }
}

/// Configuration of a pipeline run: its size limit and whether the content
/// is checked.
#[derive(Debug, Clone)]
pub struct TemplateConfig {
    max_input_size: u64,
    enable_validation: bool,
}

impl TemplateConfig {
    pub closed spec fn spec_max_input_size(&self) -> u64 {
        self.max_input_size
    }

    pub closed spec fn spec_enable_validation(&self) -> bool {
        self.enable_validation
    }

    /// Creates a configuration.
    pub fn new(max_input_size: u64, enable_validation: bool) -> (r: Self)
        ensures
            r.spec_max_input_size() == max_input_size,
            r.spec_enable_validation() == enable_validation,
    {
        TemplateConfig { max_input_size, enable_validation }
    }

    /// The maximum input size, in bytes.
    pub fn max_input_size(&self) -> (r: u64)
        ensures
            r == self.spec_max_input_size(),
    {
        self.max_input_size
    }

    /// Whether content validation is enabled.
    pub fn enable_validation(&self) -> (r: bool)
        ensures
            r == self.spec_enable_validation(),
    {
        self.enable_validation
    }
}

impl Default for TemplateConfig {
    /// The library-wide defaults: 1,000,000 bytes, with validation.
    fn default() -> (r: Self)
        ensures
            r.spec_max_input_size() == MAX_INPUT_SIZE as u64,
            r.spec_enable_validation(),
    {
        TemplateConfig { max_input_size: MAX_INPUT_SIZE as u64, enable_validation: true }
    }
}

/// A shared cancellation flag. Clones share one flag: any holder may set
/// it, and every holder then observes it set. It is never unset.
///
/// What a read returns depends on what other holders did before it, so the
/// contracts here promise nothing of it; the pipeline's decisions take the
/// observed value as an argument instead.
#[derive(Debug, Clone)]
pub struct CancellationToken {
    cancelled: Arc<AtomicBool>,
}

impl CancellationToken {
    /// Creates a token that is not set.
    pub fn new() -> (r: Self) {
        CancellationToken { cancelled: Arc::new(AtomicBool::new(false)) }
    }

    /// Sets the flag, with release ordering. Setting it again changes
    /// nothing.
    pub fn cancel(&self) {
        self.cancelled.store(true, Ordering::Release);
    }

    /// Reads the flag, with acquire ordering.
    pub fn is_cancelled(&self) -> (r: bool) {
        self.cancelled.load(Ordering::Acquire)
    }
}

impl Default for CancellationToken {
    fn default() -> (r: Self) {
        CancellationToken::new()
    }
}

/// Reads an optional signal at a checkpoint: an absent one is never set.
pub fn is_signalled(token: Option<&CancellationToken>) -> (r: bool)
    ensures
        token is None ==> !r,
{
    match token {
        Some(t) => t.is_cancelled(),
        None => false,
    }
}

/// Scans a text for the character U+0000.
fn contains_null(s: &str) -> (r: bool)
    ensures
        r == s@.contains('\0'),
{
    broadcast use vstd::string::axiom_spec_iter, vstd::string::next_postcondition;

    let mut it = s.chars();
    let ghost mut i: int = 0;
    loop
        invariant
            0 <= i <= s@.len(),
            it.obeys_prophetic_iter_laws(),
            it.remaining() == s@.subrange(i, s@.len() as int),
            forall|j: int| 0 <= j < i ==> s@[j] != '\0',
        decreases s@.len() - i,
    {
        match it.next() {
            Some(c) => {
                assert(s@[i] == c);
                if c == '\0' {
                    return true;
                }
                proof {
                    i = i + 1;
                }
                assert(it.remaining() =~= s@.subrange(i, s@.len() as int));
            },
            None => {
                assert(!s@.contains('\0'));
                return false;
            },
        }
    }
}

/// The message of a content rejection for a null character.
pub open spec fn null_message() -> Seq<char> {
    "Input contains null bytes"@
}

/// Checks the content of a text: it holds no null character, and its byte
/// length ends on a character boundary (which every well-formed text does;
/// the check states it rather than trusting the type).
fn validate_input(input: &str) -> (r: TemplateResult<()>)
    ensures
        r is Err <==> input@.contains('\0'),
        r is Err ==> r->Err_0@ == (TemplateErrorView::Malformed {
            message: null_message(),
            preview: Some(preview_of(input@)),
        }),
{
    if contains_null(input) {
        return Err(
            TemplateError::invalid_input("Input contains null bytes".to_owned(), Some(input)),
        );
    }
    proof {
        vstd::utf8::encode_utf8_valid_utf8(input@);
        vstd::utf8::is_char_boundary_start_end_of_seq(encode_utf8(input@));
    }
    if !input.is_empty() && !input.is_char_boundary(byte_len(input)) {
        return Err(TemplateError::invalid_input("Invalid UTF-8 sequence".to_owned(), Some(input)));
    }
    Ok(())
}

/// The outcome that echoes a non-empty text.
pub open spec fn echoes(o: EchoResult, s: Seq<char>) -> bool {
    &&& o.text@ == s
    &&& o.length as nat == utf8_len(s) % 0x1_0000_0000
    &&& o.hash is None
}

/// What a run that was not cancelled returns: the size check first, then,
/// if enabled, the content check; then no outcome for the empty text, and an
/// outcome that echoes it for any other.
pub open spec fn validated_echo(
    input: Seq<char>,
    max_size: u64,
    validate: bool,
    r: TemplateResult<Option<EchoResult>>,
) -> bool {
    if utf8_len(input) > max_size {
        &&& r is Err
        &&& r->Err_0@ == (TemplateErrorView::TooLarge {
            size: utf8_len(input) as u64,
            max: max_size,
            hash: hash_text(input),
        })
    } else if validate && input.contains('\0') {
        &&& r is Err
        &&& r->Err_0@ == (TemplateErrorView::Malformed {
            message: null_message(),
            preview: Some(preview_of(input)),
        })
    } else if input.len() == 0 {
        r == TemplateResult::<Option<EchoResult>>::Ok(None)
    } else {
        &&& r is Ok
        &&& r->Ok_0 is Some
        &&& echoes(r->Ok_0->Some_0, input)
    }
}

/// What a run cancelled at a checkpoint returns.
pub open spec fn cancelled_as<T>(r: TemplateResult<T>, operation: Seq<char>) -> bool {
    &&& r is Err
    &&& r->Err_0@ == (TemplateErrorView::Cancelled { operation })
}

/// Validates the size, then the content if enabled, then builds the outcome.
fn validate_and_echo_internal(input: &str, max_size: u64, enable_validation: bool) -> (r:
    TemplateResult<Option<EchoResult>>)
    ensures
        validated_echo(input@, max_size, enable_validation, r),
{
    let input_size = byte_len(input);
    if input_size as u64 > max_size {
        return Err(TemplateError::input_too_large(input_size, max_size as usize, input));
    }
    if enable_validation {
        match validate_input(input) {
            Ok(()) => {},
            Err(e) => {
                return Err(e);
            },
        }
    }
    if input.is_empty() {
        return Ok(None);
    }
    Ok(Some(EchoResult::new(input.to_owned())))
}

/// Where a pipeline run stands.
#[derive(Debug, Clone, Copy, PartialEq, Eq)]
pub enum EchoPhase {
    /// Before the first checkpoint.
    Start,
    /// Past the first checkpoint, at the suspension point.
    Suspended,
    /// Finished: cancelled, rejected or done.
    Done,
}

/// What the host does after a step.
#[derive(Debug)]
pub enum EchoStep {
    /// Yield to the scheduler once, then step again.
    Suspend,
    /// The run is over, with this result.
    Finished(TemplateResult<Option<EchoResult>>),
}

/// One cooperative run of the validated echo, as a state machine. The host
/// reads the signal before each step and hands the value in; on `Suspend`
/// it yields once and steps again.
#[derive(Debug)]
pub struct EchoPipeline {
    /// Name reported when the run is cancelled.
    pub operation: String,
    /// The text to echo.
    pub input: String,
    /// Largest accepted byte length.
    pub max_size: u64,
    /// Whether the content is checked.
    pub validate: bool,
    /// Where the run stands.
    pub phase: EchoPhase,
}

/// One step of the pipeline, from `p` to `q` with `r`, when the signal was
/// observed as `cancelled`.
pub open spec fn step_spec(p: EchoPipeline, cancelled: bool, q: EchoPipeline, r: EchoStep) -> bool {
    &&& q.operation@ == p.operation@
    &&& q.input@ == p.input@
    &&& q.max_size == p.max_size
    &&& q.validate == p.validate
    &&& match p.phase {
        EchoPhase::Start => if cancelled {
            &&& q.phase == EchoPhase::Done
            &&& r is Finished
            &&& cancelled_as(r->Finished_0, p.operation@)
        } else {
            &&& q.phase == EchoPhase::Suspended
            &&& r is Suspend
        },
        EchoPhase::Suspended => {
            &&& q.phase == EchoPhase::Done
            &&& r is Finished
            &&& if cancelled {
                cancelled_as(r->Finished_0, p.operation@)
            } else {
                validated_echo(p.input@, p.max_size, p.validate, r->Finished_0)
            }
        },
        EchoPhase::Done => false,
    }
}

impl EchoPipeline {
    /// A run that has not begun.
    pub fn new(operation: &str, input: String, max_size: u64, validate: bool) -> (r: Self)
        ensures
            r.operation@ == operation@,
            r.input@ == input@,
            r.max_size == max_size,
            r.validate == validate,
            r.phase == EchoPhase::Start,
    {
        EchoPipeline {
            operation: operation.to_owned(),
            input,
            max_size,
            validate,
            phase: EchoPhase::Start,
        }
    }

    /// Takes one step, given whether the signal was observed set at this
    /// checkpoint.
    pub fn step(&mut self, cancelled: bool) -> (r: EchoStep)
        requires
            old(self).phase != EchoPhase::Done,
        ensures
            step_spec(*old(self), cancelled, *final(self), r),
    {
        match self.phase {
            EchoPhase::Start => {
                if cancelled {
                    self.phase = EchoPhase::Done;
                    EchoStep::Finished(Err(TemplateError::operation_cancelled(self.operation.as_str())))
                } else {
                    self.phase = EchoPhase::Suspended;
                    EchoStep::Suspend
                }
            },
            EchoPhase::Suspended => {
                self.phase = EchoPhase::Done;
                if cancelled {
                    EchoStep::Finished(Err(TemplateError::operation_cancelled(self.operation.as_str())))
                } else {
                    EchoStep::Finished(
                        validate_and_echo_internal(self.input.as_str(), self.max_size, self.validate),
                    )
                }
            },
            EchoPhase::Done => EchoStep::Suspend,
        }
    }
}

/// How many steps a run in this phase takes at most.
pub open spec fn phase_rank(p: EchoPhase) -> nat {
    match p {
        EchoPhase::Start => 2,
        EchoPhase::Suspended => 1,
        EchoPhase::Done => 0,
    }
}

/// Runs a pipeline to its end in the calling thread, reading the signal at
/// each checkpoint; here the suspension point does nothing. Whatever the
/// signal reads, the result is the cancellation or the validated echo; with
/// no signal it is the validated echo.
#[verifier::loop_isolation(false)]
pub fn run_pipeline(
    operation: &str,
    input: String,
    max_size: u64,
    validate: bool,
    token: Option<&CancellationToken>,
) -> (r: TemplateResult<Option<EchoResult>>)
    ensures
        cancelled_as(r, operation@) || validated_echo(input@, max_size, validate, r),
        token is None ==> validated_echo(input@, max_size, validate, r),
{
    let ghost text = input@;
    let mut p = EchoPipeline::new(operation, input, max_size, validate);
    loop
        invariant
            p.operation@ == operation@,
            p.input@ == text,
            p.max_size == max_size,
            p.validate == validate,
            p.phase != EchoPhase::Done,
        decreases phase_rank(p.phase),
    {
        let cancelled = is_signalled(token);
        match p.step(cancelled) {
            EchoStep::Suspend => {},
            EchoStep::Finished(r) => {
                return r;
            },
        }
    }
}

/// The signal behind an optional shared handle.
fn signal_of(token: &Option<Arc<CancellationToken>>) -> (r: Option<&CancellationToken>)
    ensures
        token is None <==> r is None,
{
    match token {
        Some(t) => Some(&**t),
        None => None,
    }
}

/// Echoes a text under the library-wide limit (1,000,000 bytes) with content
/// validation, honouring the signal at both checkpoints: no outcome for the
/// empty text, else the text with its byte length.
pub fn echo(input: String, token: Option<Arc<CancellationToken>>) -> (r: TemplateResult<
    Option<EchoResult>,
>)
    ensures
        cancelled_as(r, "echo"@) || validated_echo(input@, MAX_INPUT_SIZE as u64, true, r),
        token is None ==> validated_echo(input@, MAX_INPUT_SIZE as u64, true, r),
{
    run_pipeline("echo", input, MAX_INPUT_SIZE as u64, true, signal_of(&token))
}

impl TemplateConfig {
    /// Echoes a text under this configuration's own limit and validation
    /// setting, through the same two checkpoints as [`echo`].
    pub fn validate_and_echo(&self, input: String, token: Option<Arc<CancellationToken>>) -> (r:
        TemplateResult<Option<EchoResult>>)
        ensures
            cancelled_as(r, "validate_and_echo"@) || validated_echo(
                input@,
                self.spec_max_input_size(),
                self.spec_enable_validation(),
                r,
            ),
            token is None ==> validated_echo(
                input@,
                self.spec_max_input_size(),
                self.spec_enable_validation(),
                r,
            ),
    {
        run_pipeline(
            "validate_and_echo",
            input,
            self.max_input_size,
            self.enable_validation,
            signal_of(&token),
        )
    }
}

/// A text within the size limit and free of null characters is echoed
/// successfully: there is no outcome exactly when the text is empty, and an
/// outcome holds the text itself and its byte length (for texts under 4 GiB,
/// the range of the length field).
pub proof fn lemma_valid_input_echoed(
    input: Seq<char>,
    max_size: u64,
    validate: bool,
    r: TemplateResult<Option<EchoResult>>,
)
    requires
        utf8_len(input) <= max_size,
        utf8_len(input) <= u32::MAX,
        !input.contains('\0'),
        validated_echo(input, max_size, validate, r),
    ensures
        r is Ok,
        r->Ok_0 is None <==> input.len() == 0,
        r->Ok_0 is Some ==> r->Ok_0->Some_0.text@ == input,
        r->Ok_0 is Some ==> r->Ok_0->Some_0.length as nat == utf8_len(input),
{
}

/// A text over the size limit is rejected as too large, with its size and
/// the limit; the hash is never empty, and two runs on the same text record
/// the same hash.
pub proof fn lemma_oversized_rejected(
    input: Seq<char>,
    max1: u64,
    validate1: bool,
    r1: TemplateResult<Option<EchoResult>>,
    max2: u64,
    validate2: bool,
    r2: TemplateResult<Option<EchoResult>>,
)
    requires
        utf8_len(input) > max1,
        utf8_len(input) > max2,
        validated_echo(input, max1, validate1, r1),
        validated_echo(input, max2, validate2, r2),
    ensures
        r1 is Err,
        r1->Err_0@ is TooLarge,
        r1->Err_0@->TooLarge_size == utf8_len(input) as u64,
        r1->Err_0@->TooLarge_max == max1,
        r1->Err_0@->TooLarge_hash.len() > 0,
        r2 is Err,
        r2->Err_0@ is TooLarge,
        r2->Err_0@->TooLarge_hash == r1->Err_0@->TooLarge_hash,
{
    crate::error::lemma_lower_hex_nonempty(crate::error::diagnostic_hash(input) as nat);
}

/// With validation on, a text within the size limit that holds a null
/// character is rejected as malformed; its preview is the whole text when it
/// has at most 50 characters, else exactly its first 50 followed by `...`.
pub proof fn lemma_null_rejected(input: Seq<char>, max_size: u64, r: TemplateResult<Option<EchoResult>>)
    requires
        utf8_len(input) <= max_size,
        input.contains('\0'),
        validated_echo(input, max_size, true, r),
    ensures
        r is Err,
        r->Err_0@ is Malformed,
        r->Err_0@->Malformed_message == null_message(),
        r->Err_0@->Malformed_preview is Some,
        input.len() > 50 ==> r->Err_0@->Malformed_preview->Some_0 == input.subrange(0, 50) + seq!['.', '.', '.'],
        input.len() <= 50 ==> r->Err_0@->Malformed_preview->Some_0 == input,
{
}

/// A signal observed set at the first checkpoint ends the run there as
/// cancelled under the run's operation name, whatever the input and the
/// limits: cancellation takes priority over validation.
pub proof fn lemma_cancelled_before_validation(p: EchoPipeline, q: EchoPipeline, r: EchoStep)
    requires
        p.phase == EchoPhase::Start,
        step_spec(p, true, q, r),
    ensures
        q.phase == EchoPhase::Done,
        r is Finished,
        cancelled_as(r->Finished_0, p.operation@),
{
}

/// A signal observed set at the second checkpoint, after the suspension,
/// also ends the run as cancelled before any validation.
pub proof fn lemma_cancelled_after_suspension(p: EchoPipeline, q: EchoPipeline, r: EchoStep)
    requires
        p.phase == EchoPhase::Suspended,
        step_spec(p, true, q, r),
    ensures
        q.phase == EchoPhase::Done,
        r is Finished,
        cancelled_as(r->Finished_0, p.operation@),
{
}

} // verus!
