//! The invocation engine's decisions: decoding the request payload,
//! resolving the program, the error taxonomy of a single invocation, and
//! the uniform response envelope built from whatever state was reached.

use vstd::arithmetic::div_mod::{
    lemma_div_by_multiple, lemma_div_is_ordered, lemma_hoist_over_denominator,
};
use vstd::prelude::*;
use vstd::string::StringExecFns;

use crate::codec::{base64_decode, base64_decode_of, base64_encode, base64_encode_of};
use crate::server::{resolve_in, Server};

verus! {

/// The decoded inbound envelope: the payload for the child's standard
/// input, as base64 text.
pub struct InvokeRequestBody {
    pub stdin: String,
}

/// The outbound envelope, shared by success and failure: either `error` is
/// `None` and the other fields reflect a completed execution, or `error` is
/// set and every other field is at its zero default.
pub struct InvokeResponseBody {
    pub stdout: String,
    pub stderr: String,
    pub exit_status: i32,
    pub duration: u64,
    pub error: Option<String>,
}

/// The envelope's invariant: either `error` is absent and the other fields
/// reflect a completed execution, or `error` is present and every other
/// field is at its zero default.
pub open spec fn envelope_wf(r: InvokeResponseBody) -> bool {
    r.error is Some ==> (r.stdout@ == Seq::<char>::empty() && r.stderr@ == Seq::<char>::empty()
        && r.exit_status == 0 && r.duration == 0)
}

/// Everything that can go wrong during one invocation. Each variant carries
/// the underlying cause's text where there is one.
#[derive(Debug)]
pub enum InvokeError {
    BodyRead(String),
    JsonDecode(String),
    Base64Decode(String),
    UnknownProgram(String),
    Spawn { program: String, location: String, cause: String },
    StdinPipeUnavailable,
    StdinWrite(String),
    StdinFlush(String),
    StdoutUnavailable,
    ProcessWait(String),
}

/// The message reported to the caller for each failure.
pub open spec fn invoke_error_message(e: InvokeError) -> Seq<char> {
    match e {
        InvokeError::BodyRead(c) => "Unable to read request's body! Error: "@ + c@,
        InvokeError::JsonDecode(c) => "Unable to decode request's JSON body! Error: "@ + c@,
        InvokeError::Base64Decode(c) => "Unable to decode base64 stdin content. Error: "@ + c@,
        InvokeError::UnknownProgram(p) => "Unable to resolve location of program "@ + p@
            + "! No such entry in server configuration"@,
        InvokeError::Spawn { program, location, cause } => "Unable to start program '"@ + program@
            + "' (location in container: "@ + location@ + "). Error: "@ + cause@,
        InvokeError::StdinPipeUnavailable => "Unable to open stdin of invoked program"@,
        InvokeError::StdinWrite(c) => "Unable to write to stdin of invoked program. Error: "@ + c@,
        InvokeError::StdinFlush(c) => "Unable to flush stdin of invoked program. Error: "@ + c@,
        InvokeError::StdoutUnavailable => "Unable to obtain stdout of invoked program"@,
        InvokeError::ProcessWait(c) => "An error occured while waiting for child program to finish. Error: "@
            + c@,
    }
}

/// Writes the human-readable message for a failure.
pub fn error_message(e: &InvokeError) -> (r: String)
    ensures
        r@ == invoke_error_message(*e),
{
    match e {
        InvokeError::BodyRead(c) => {
            let mut m = "Unable to read request's body! Error: ".to_owned();
            m.append(c.as_str());
            m
        },
        InvokeError::JsonDecode(c) => {
            let mut m = "Unable to decode request's JSON body! Error: ".to_owned();
            m.append(c.as_str());
            m
        },
        InvokeError::Base64Decode(c) => {
            let mut m = "Unable to decode base64 stdin content. Error: ".to_owned();
            m.append(c.as_str());
            m
        },
        InvokeError::UnknownProgram(p) => {
            let mut m = "Unable to resolve location of program ".to_owned();
            m.append(p.as_str());
            m.append("! No such entry in server configuration");
            m
        },
        InvokeError::Spawn { program, location, cause } => {
            let mut m = "Unable to start program '".to_owned();
            m.append(program.as_str());
            m.append("' (location in container: ");
            m.append(location.as_str());
            m.append("). Error: ");
            m.append(cause.as_str());
            m
        },
        InvokeError::StdinPipeUnavailable => "Unable to open stdin of invoked program".to_owned(),
        InvokeError::StdinWrite(c) => {
            let mut m = "Unable to write to stdin of invoked program. Error: ".to_owned();
            m.append(c.as_str());
            m
        },
        InvokeError::StdinFlush(c) => {
            let mut m = "Unable to flush stdin of invoked program. Error: ".to_owned();
            m.append(c.as_str());
            m
        },
        InvokeError::StdoutUnavailable => "Unable to obtain stdout of invoked program".to_owned(),
        InvokeError::ProcessWait(c) => {
            let mut m =
                "An error occured while waiting for child program to finish. Error: ".to_owned();
            m.append(c.as_str());
            m
        },
    }
}

/// Builds the failure envelope: only `error` is populated, every other
/// field stays at its zero default.
pub fn error_response(e: &InvokeError) -> (r: InvokeResponseBody)
    ensures
        r.stdout@ == Seq::<char>::empty(),
        r.stderr@ == Seq::<char>::empty(),
        r.exit_status == 0,
        r.duration == 0,
        r.error matches Some(m) && m@ == invoke_error_message(*e),
        envelope_wf(r),
{
    InvokeResponseBody {
        stdout: String::new(),
        stderr: String::new(),
        exit_status: 0,
        duration: 0,
        error: Some(error_message(e)),
    }
}

/// The HTTP status an envelope is delivered with: success is 200, any
/// failure is the client-error status 400.
pub fn response_status(r: &InvokeResponseBody) -> (s: u16)
    ensures
        s == 200 <==> r.error is None,
        s == 200 || s == 400,
{
    match &r.error {
        None => 200,
        Some(_) => 400,
    }
}

/// Decodes the request's base64 payload into the bytes delivered on the
/// child's standard input.
pub fn decode_stdin(req: &InvokeRequestBody) -> (r: Result<Vec<u8>, InvokeError>)
    ensures
        r is Ok <==> base64_decode_of(req.stdin@) is Some,
        r matches Ok(v) ==> base64_decode_of(req.stdin@) == Some(v@),
        r matches Err(e) ==> e is Base64Decode,
{
    match base64_decode(req.stdin.as_str()) {
        Ok(v) => Ok(v),
        Err(c) => Err(InvokeError::Base64Decode(c)),
    }
}

/// The reported exit status: the child's exit code, or the sentinel -1
/// where it terminated without one (for instance by a signal).
pub fn exit_status_code(code: Option<i32>) -> (r: i32)
    ensures
        code matches Some(c) ==> r == c,
        code is None ==> r == -1,
{
    match code {
        Some(c) => c,
        None => -1,
    }
}

/// The wall-clock duration in microseconds, from whole seconds and the
/// sub-second nanoseconds.
pub open spec fn duration_micros_spec(secs: u64, subsec_nanos: u32) -> int {
    secs * 1000000 + subsec_nanos / 1000
}

/// Converts a measured duration to microseconds.
pub fn duration_micros(secs: u64, subsec_nanos: u32) -> (r: u64)
    requires
        duration_micros_spec(secs, subsec_nanos) <= u64::MAX,
    ensures
        r == duration_micros_spec(secs, subsec_nanos),
{
    secs * 1000000 + (subsec_nanos as u64) / 1000
}

/// A run that lasted at least `ms` milliseconds is reported with at least
/// `ms * 1000` microseconds.
pub proof fn lemma_duration_lower_bound(secs: u64, subsec_nanos: u32, ms: u64)
    requires
        secs * 1000000000 + subsec_nanos >= ms * 1000000,
    ensures
        duration_micros_spec(secs, subsec_nanos) >= ms * 1000,
{
    let s = secs as int;
    let n = subsec_nanos as int;
    let m = ms as int;
    assert((s * 1000000) * 1000 == s * 1000000000) by (nonlinear_arith);
    lemma_hoist_over_denominator(n, s * 1000000, 1000nat);
    assert(n / 1000 + s * 1000000 == (n + s * 1000000000) / 1000);
    lemma_div_is_ordered(m * 1000000, s * 1000000000 + n, 1000);
    assert((m * 1000) * 1000 == m * 1000000) by (nonlinear_arith);
    lemma_div_by_multiple(m * 1000, 1000);
    assert((m * 1000000) / 1000 == m * 1000);
}

/// How one invocation ended: the process completed (with its exit code,
/// measured duration and both captured streams), or it failed at some
/// stage.
pub enum InvokeOutcome {
    Completed {
        exit_code: Option<i32>,
        duration_secs: u64,
        duration_subsec_nanos: u32,
        stdout: Vec<u8>,
        stderr: Vec<u8>,
    },
    Failed(InvokeError),
}

/// Builds the success envelope: both captured streams as base64, the exit
/// status as reported, no error.
pub fn build_success_response(
    stdout: &Vec<u8>,
    stderr: &Vec<u8>,
    exit_status: i32,
    duration: u64,
) -> (r: InvokeResponseBody)
    ensures
        r.stdout@ == base64_encode_of(stdout@),
        base64_decode_of(r.stdout@) == Some(stdout@),
        r.stderr@ == base64_encode_of(stderr@),
        base64_decode_of(r.stderr@) == Some(stderr@),
        r.exit_status == exit_status,
        r.duration == duration,
        r.error is None,
        envelope_wf(r),
{
    InvokeResponseBody {
        stdout: base64_encode(stdout.as_slice()),
        stderr: base64_encode(stderr.as_slice()),
        exit_status,
        duration,
        error: None,
    }
}

/// Assembles the envelope for however the invocation ended: a completed
/// execution is reported with its exit code (or -1 without one), its
/// duration in microseconds and both streams base64-encoded; a failure is
/// reported with only `error` set.
pub fn invoke_response(outcome: InvokeOutcome) -> (r: InvokeResponseBody)
    requires
        outcome matches InvokeOutcome::Completed { duration_secs, duration_subsec_nanos, .. }
            ==> duration_micros_spec(duration_secs, duration_subsec_nanos) <= u64::MAX,
    ensures
        outcome matches InvokeOutcome::Failed(e) ==> {
            &&& r.stdout@ == Seq::<char>::empty()
            &&& r.stderr@ == Seq::<char>::empty()
            &&& r.exit_status == 0
            &&& r.duration == 0
            &&& r.error matches Some(m) && m@ == invoke_error_message(e)
        },
        outcome matches InvokeOutcome::Completed {
            exit_code,
            duration_secs,
            duration_subsec_nanos,
            stdout,
            stderr,
        } ==> {
            &&& r.stdout@ == base64_encode_of(stdout@)
            &&& base64_decode_of(r.stdout@) == Some(stdout@)
            &&& r.stderr@ == base64_encode_of(stderr@)
            &&& base64_decode_of(r.stderr@) == Some(stderr@)
            &&& r.exit_status == (if exit_code is Some {
                exit_code->0
            } else {
                -1i32
            })
            &&& r.duration == duration_micros_spec(duration_secs, duration_subsec_nanos)
            &&& r.error is None
        },
        envelope_wf(r),
{
    match outcome {
        InvokeOutcome::Failed(e) => error_response(&e),
        InvokeOutcome::Completed { exit_code, duration_secs, duration_subsec_nanos, stdout, stderr } => {
            let status = exit_status_code(exit_code);
            let duration = duration_micros(duration_secs, duration_subsec_nanos);
            build_success_response(&stdout, &stderr, status, duration)
        },
    }
}

/// Decodes one request and resolves its program: the JSON outcome of the
/// wire envelope, then the base64 payload, then the registry lookup; the
/// first failure wins and no further stage runs.
pub fn prepare_invocation(
    server: &Server,
    program: &str,
    parsed: Result<InvokeRequestBody, String>,
) -> (r: Result<(String, Vec<u8>), InvokeError>)
    ensures
        r is Ok <==> (parsed matches Ok(req) && base64_decode_of(req.stdin@) is Some
            && resolve_in(server.registry(), program@) is Some),
        r matches Ok(p) ==> {
            &&& parsed matches Ok(req) && base64_decode_of(req.stdin@) == Some(p.1@)
            &&& resolve_in(server.registry(), program@) == Some(p.0@)
        },
        parsed matches Err(c) ==> (r matches Err(e) && e matches InvokeError::JsonDecode(m)
            && m@ == c@),
        parsed matches Ok(req) && base64_decode_of(req.stdin@) is None ==> (r matches Err(e)
            && e is Base64Decode),
        parsed matches Ok(req) && base64_decode_of(req.stdin@) is Some
            && resolve_in(server.registry(), program@) is None ==> (r matches Err(e)
            && e matches InvokeError::UnknownProgram(p) && p@ == program@),
{
    match parsed {
        Err(c) => Err(InvokeError::JsonDecode(c)),
        Ok(req) => match decode_stdin(&req) {
            Err(e) => Err(e),
            Ok(bytes) => match server.resolve(program) {
                None => Err(InvokeError::UnknownProgram(program.to_owned())),
                Some(location) => Ok((location.clone(), bytes)),
            },
        },
    }
}

} // verus!
