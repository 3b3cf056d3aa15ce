//! Lambda: the settings of a new function, and the decisions of running one
//! as a Kubernetes job.
use vstd::prelude::*;
use vstd::string::StringSliceAdditionalSpecFns;
use base64::Engine;
use crate::text::{owned, concat2, chars_of, copy_range, string_of, trim, trim_bounds};
use crate::error::AwsemError;
use crate::naming::{validate, name_problem};

verus! {

/// A numeric setting of a new function: the value given, or `default`, cut
/// to 32 bits as `as i32` cuts it.
pub fn i32_setting(value: Option<i64>, default: i64) -> (r: i32)
    ensures r == (match value {
        Some(v) => v,
        None => default,
    }) as i32,
{
    let v = match value {
        Some(v) => v,
        None => default,
    };
    v as i32
}

/// What a `CreateFunction` request gives; absent fields are `None`.
pub struct FunctionInput {
    pub function_name: Option<String>,
    pub runtime: Option<String>,
    pub handler: Option<String>,
    pub role: Option<String>,
    pub image: Option<String>,
    pub timeout: Option<i64>,
    pub memory_size: Option<i64>,
    pub zip_file: Option<String>,
}

/// The function a `CreateFunction` request creates.
pub struct NewFunction {
    pub name: String,
    pub arn: String,
    pub runtime: String,
    pub handler: String,
    pub role: String,
    pub image: Option<String>,
    pub timeout: i32,
    pub memory_size: i32,
    pub code_zip: Option<Vec<u8>>,
}

pub open spec fn str_or(o: Option<String>, d: Seq<char>) -> Seq<char> {
    match o {
        Some(s) => s@,
        None => d,
    }
}

fn string_or(o: Option<String>, d: &str) -> (r: String)
    ensures r@ == str_or(o, d@),
{
    match o {
        Some(s) => s,
        None => owned(d),
    }
}

/// Checks a `CreateFunction` request and fills in its defaults: runtime
/// `provided.al2023`, empty handler and role, timeout 3 and memory 128 (cut
/// to 32 bits), the configured runtime image where none is given, and the
/// code archive decoded from base64. A name that is not valid is refused.
pub fn plan_function(input: FunctionInput, runtime_image: &Option<String>) -> (r: Result<NewFunction, AwsemError>)
    ensures
        match name_problem_of(input.function_name) {
            Some(msg) => r matches Err(AwsemError::InvalidRequest(m)) && m@ == "Invalid FunctionName: "@ + msg,
            None => r matches Ok(f) && {
                &&& f.name@ == str_or(input.function_name, ""@)
                &&& f.arn@ == "arn:aws:lambda:us-east-1:000000000000:function:"@ + f.name@
                &&& f.runtime@ == str_or(input.runtime, "provided.al2023"@)
                &&& f.handler@ == str_or(input.handler, ""@)
                &&& f.role@ == str_or(input.role, ""@)
                &&& f.timeout == (match input.timeout { Some(v) => v, None => 3i64 }) as i32
                &&& f.memory_size == (match input.memory_size { Some(v) => v, None => 128i64 }) as i32
                &&& (match input.image {
                        Some(i) => f.image matches Some(x) && x@ == i@,
                        None => match runtime_image {
                            Some(d) => f.image matches Some(x) && x@ == d@,
                            None => f.image is None,
                        },
                    })
                &&& (match input.zip_file {
                        Some(t) => match base64_decoded(t@) {
                            Some(b) => f.code_zip matches Some(v) && v@ == b,
                            None => f.code_zip is None,
                        },
                        None => f.code_zip is None,
                    })
            },
        },
{
    proof {
        reveal_strlit("");
    }
    let name = string_or(input.function_name, "");
    match check_function_name(name.as_str()) {
        Err(e) => return Err(e),
        Ok(()) => {}
    }
    let arn = concat2("arn:aws:lambda:us-east-1:000000000000:function:", name.as_str());
    let zip = match &input.zip_file {
        Some(t) => code_zip(Some(t.as_str())),
        None => None,
    };
    Ok(NewFunction {
        name,
        arn,
        runtime: string_or(input.runtime, "provided.al2023"),
        handler: string_or(input.handler, ""),
        role: string_or(input.role, ""),
        image: function_image(input.image, runtime_image),
        timeout: i32_setting(input.timeout, 3),
        memory_size: i32_setting(input.memory_size, 128),
        code_zip: zip,
    })
}

/// Checks the name a request gives a function: a name that is not valid is
/// refused with `Invalid FunctionName: ` and the rule it breaks.
pub fn check_function_name(name: &str) -> (r: Result<(), AwsemError>)
    ensures
        match name_problem(name@) {
            None => r is Ok,
            Some(msg) => r matches Err(AwsemError::InvalidRequest(m)) && m@ == "Invalid FunctionName: "@ + msg,
        },
{
    match validate(name) {
        Err(msg) => Err(AwsemError::InvalidRequest(concat2("Invalid FunctionName: ", msg))),
        Ok(()) => Ok(()),
    }
}

/// The reason the requested name is refused (an absent name counts as empty).
pub open spec fn name_problem_of(name: Option<String>) -> Option<Seq<char>> {
    match name {
        Some(n) => name_problem(n@),
        None => name_problem(Seq::<char>::empty()),
    }
}

/// The image a function runs in: its own, or the configured runtime image.
pub fn function_image(image: Option<String>, runtime_image: &Option<String>) -> (r: Option<String>)
    ensures
        match image {
            Some(i) => r matches Some(x) && x@ == i@,
            None => match runtime_image {
                Some(d) => r matches Some(x) && x@ == d@,
                None => r is None,
            },
        },
{
    match image {
        Some(i) => Some(i),
        None => match runtime_image {
            Some(d) => Some(d.clone()),
            None => None,
        },
    }
}

/// The name of the Kubernetes job of one invocation: `lambda-{name}-{job_id}`.
pub fn invocation_job_name(name: &str, job_id: &str) -> (r: String)
    ensures r@ == "lambda-"@ + name@ + "-"@ + job_id@,
{
    let mut r = concat2("lambda-", name);
    r.append("-");
    r.append(job_id);
    r
}

/// The label that selects the pods of a job: `job-name={job_name}`.
pub fn job_pod_label(job_name: &str) -> (r: String)
    ensures r@ == "job-name="@ + job_name@,
{
    concat2("job-name=", job_name)
}

/// How long an invocation is awaited, in seconds: the function's timeout (at
/// least 3) plus 10.
pub fn invocation_deadline_secs(timeout: i32) -> (r: u64)
    ensures r == (if timeout < 3 { 3 } else { timeout as int }) + 10,
{
    let t = if timeout < 3 { 3 } else { timeout };
    t as u64 + 10
}

/// Whether a pod phase ends an invocation.
pub fn is_finished_phase(phase: &str) -> (b: bool)
    ensures b == (phase@ == "Succeeded"@ || phase@ == "Failed"@),
{
    crate::text::str_eq(phase, "Succeeded") || crate::text::str_eq(phase, "Failed")
}

/// What an invocation answers: the function's own output, or a status code
/// with a message (answered as `{"statusCode": ..., "body": ...}`).
pub enum InvocationResult {
    Output(String),
    Status(u16, String),
}

/// The answer where no Kubernetes cluster is reachable: a greeting from the function.
pub fn mock_result(name: &str) -> (r: InvocationResult)
    ensures r matches InvocationResult::Status(code, body) && code == 200
        && body@ == "Hello from awsem Lambda ("@ + name@ + ")!"@,
{
    let mut b = concat2("Hello from awsem Lambda (", name);
    b.append(")!");
    InvocationResult::Status(200, b)
}

/// The answer where the function is unknown.
pub fn not_found_result(name: &str) -> (r: InvocationResult)
    ensures r matches InvocationResult::Status(code, body) && code == 404
        && body@ == "Function "@ + name@ + " not found"@,
{
    let mut b = concat2("Function ", name);
    b.append(" not found");
    InvocationResult::Status(404, b)
}

/// An answer with status 500 and the message `{prefix}{detail}`.
pub fn failure_result(prefix: &str, detail: &str) -> (r: InvocationResult)
    ensures r matches InvocationResult::Status(code, body) && code == 500 && body@ == prefix@ + detail@,
{
    InvocationResult::Status(500, concat2(prefix, detail))
}

/// The answer of a finished invocation: the trimmed logs where the pod
/// succeeded, the logs with status 500 where it failed, and status 500 where
/// the logs could not be read.
pub fn finished_result(succeeded: bool, logs: Result<String, String>) -> (r: InvocationResult)
    ensures
        match logs {
            Ok(l) => if succeeded {
                r matches InvocationResult::Output(o) && o@ == trim(l@)
            } else {
                r matches InvocationResult::Status(code, body) && code == 500 && body@ == l@
            },
            Err(e) => r matches InvocationResult::Status(code, body) && code == 500 && body@ == "Log read error: "@ + e@,
        },
{
    match logs {
        Ok(l) => {
            if succeeded {
                let cs = chars_of(l.as_str());
                let (a, b) = trim_bounds(&cs, 0, cs.len());
                assert(cs@.subrange(0, cs@.len() as int) =~= cs@);
                InvocationResult::Output(string_of(&copy_range(&cs, a, b)))
            } else {
                InvocationResult::Status(500, l)
            }
        }
        Err(e) => InvocationResult::Status(500, concat2("Log read error: ", e.as_str())),
    }
}

/// The bytes a base64 text (standard alphabet, with padding) stands for, or
/// `None` where it is no such text (`base64::engine::general_purpose::STANDARD`).
pub uninterp spec fn base64_decoded(text: Seq<char>) -> Option<Seq<u8>>;

/// The base64 text (standard alphabet, with padding) of some bytes.
pub uninterp spec fn base64_encoded(bytes: Seq<u8>) -> Seq<char>;

/// Decodes base64 with the standard alphabet (`STANDARD.decode`).
#[verifier::external_body]
fn base64_decode(text: &str) -> (r: Option<Vec<u8>>)
    ensures
        match r {
            Some(b) => base64_decoded(text@) == Some(b@),
            None => base64_decoded(text@) is None,
        },
{
    base64::engine::general_purpose::STANDARD.decode(text).ok()
}

/// Encodes bytes as base64 with the standard alphabet (`STANDARD.encode`).
#[verifier::external_body]
fn base64_encode(bytes: &[u8]) -> (r: String)
    ensures r@ == base64_encoded(bytes@),
{
    base64::engine::general_purpose::STANDARD.encode(bytes)
}

/// The code archive of a new function, from the base64 `Code.ZipFile`; none
/// where no archive is given or it is no base64 text.
pub fn code_zip(zip_file: Option<&str>) -> (r: Option<Vec<u8>>)
    ensures
        match zip_file {
            Some(t) => match base64_decoded(t@) {
                Some(b) => r matches Some(v) && v@ == b,
                None => r is None,
            },
            None => r is None,
        },
{
    match zip_file {
        Some(t) => base64_decode(t),
        None => None,
    }
}

/// The `Payload` of a synchronous invocation's answer: the function's result,
/// base64-encoded.
pub fn response_payload(result: &str) -> (r: String)
    ensures r@ == base64_encoded(result.spec_bytes()),
{
    base64_encode(result.as_bytes())
}


// ---------------------------------------------------------------------------
// Running one invocation as a Kubernetes job
// ---------------------------------------------------------------------------

/// Whether `r` is an answer with status `code` and message `body`.
pub open spec fn is_status(r: InvocationResult, code: u16, body: Seq<char>) -> bool {
    r matches InvocationResult::Status(c, b) && c == code && b@ == body
}

/// The answer of a finished invocation, as `finished_result` gives it.
pub open spec fn finished_answer(r: InvocationResult, succeeded: bool, logs: Result<String, String>) -> bool {
    match logs {
        Ok(l) => if succeeded {
            r matches InvocationResult::Output(o) && o@ == trim(l@)
        } else {
            is_status(r, 500, l@)
        },
        Err(e) => is_status(r, 500, "Log read error: "@ + e@),
    }
}

/// The invocation being run: the function's name, the id of its job and the
/// configured runtime image.
pub struct Invocation {
    pub name: String,
    pub job_id: String,
    pub runtime_image: Option<String>,
}

/// What the function's stored row gives the invocation.
pub struct FunctionRow {
    pub handler: String,
    pub image: Option<String>,
    pub timeout: i32,
}

/// Why the function's row could not be had.
pub enum LookupFailure {
    /// The database could not be used.
    Database(String),
    /// No function of that name is stored.
    Missing,
}

/// Where an invocation stands.
pub enum InvokeState {
    /// Nothing is done yet.
    Start,
    /// The function's row is awaited.
    Looking,
    /// The job is being created.
    Creating { job_name: String, timeout: i32 },
    /// The job's pods are watched until the deadline.
    Watching { job_name: String },
    /// The logs of the finished pod are being read.
    Reading { job_name: String, succeeded: bool },
    /// The answer is given.
    Done,
}

/// What happened.
pub enum InvokeEvent {
    /// The invocation began; `cluster` tells whether a cluster is reachable.
    Started { cluster: bool },
    /// The function's row was read.
    Row(Result<FunctionRow, LookupFailure>),
    /// The job was created, or not.
    Created(Result<(), String>),
    /// A pod of the job was seen in `phase`.
    PodPhase { phase: String, pod: String },
    /// The deadline passed.
    Deadline,
    /// The logs of the finished pod were read, or not.
    Logs(Result<String, String>),
}

/// What to do next.
pub enum InvokeAction {
    /// Read the function's row.
    Lookup,
    /// Create the job `job_name`, running `image` with the handler and the payload.
    CreateJob { job_name: String, image: String, handler: String },
    /// Watch the pods that carry `label` for at most `deadline_secs` seconds.
    Watch { label: String, deadline_secs: u64 },
    /// Read the logs of `pod`.
    ReadLogs { pod: String },
    /// Delete the job where one is named, then answer.
    Reply { result: InvocationResult, delete_job: Option<String> },
    /// Nothing: go on waiting.
    Wait,
}

/// `r` answers `result` and deletes nothing.
pub open spec fn replies(r: (InvokeState, InvokeAction), code: u16, body: Seq<char>) -> bool {
    &&& r.0 is Done
    &&& r.1 matches InvokeAction::Reply { result, delete_job } && delete_job is None && is_status(result, code, body)
}

/// The step an invocation takes from `s` on `e`, for the invocation `inv`.
pub open spec fn invoke_step_spec(inv: Invocation, s: InvokeState, e: InvokeEvent, r: (InvokeState, InvokeAction)) -> bool {
    match (s, e) {
        (InvokeState::Start, InvokeEvent::Started { cluster }) => if cluster {
            r.0 is Looking && r.1 is Lookup
        } else {
            replies(r, 200, "Hello from awsem Lambda ("@ + inv.name@ + ")!"@)
        },
        (InvokeState::Looking, InvokeEvent::Row(Err(LookupFailure::Missing))) =>
            replies(r, 404, "Function "@ + inv.name@ + " not found"@),
        (InvokeState::Looking, InvokeEvent::Row(Err(LookupFailure::Database(m)))) =>
            replies(r, 500, "DB error: "@ + m@),
        (InvokeState::Looking, InvokeEvent::Row(Ok(row))) => {
            let image = match row.image {
                Some(i) => Some(i@),
                None => match inv.runtime_image {
                    Some(d) => Some(d@),
                    None => None,
                },
            };
            let job_name = "lambda-"@ + inv.name@ + "-"@ + inv.job_id@;
            match image {
                None => replies(r, 500, "No Lambda runtime image configured"@),
                Some(i) => {
                    &&& r.0 matches InvokeState::Creating { job_name: n, timeout } && n@ == job_name && timeout == row.timeout
                    &&& r.1 matches InvokeAction::CreateJob { job_name: n, image: img, handler }
                        && n@ == job_name && img@ == i && handler@ == row.handler@
                },
            }
        },
        (InvokeState::Creating { job_name, timeout }, InvokeEvent::Created(Ok(()))) => {
            &&& r.0 matches InvokeState::Watching { job_name: n } && n@ == job_name@
            &&& r.1 matches InvokeAction::Watch { label, deadline_secs }
                && label@ == "job-name="@ + job_name@
                && deadline_secs == (if timeout < 3 { 3 } else { timeout as int }) + 10
        },
        (InvokeState::Creating { job_name, timeout }, InvokeEvent::Created(Err(m))) =>
            replies(r, 500, "Failed to create K8s Job: "@ + m@),
        (InvokeState::Watching { job_name }, InvokeEvent::PodPhase { phase, pod }) =>
            if phase@ == "Succeeded"@ || phase@ == "Failed"@ {
                &&& r.0 matches InvokeState::Reading { job_name: n, succeeded } && n@ == job_name@ && succeeded == (phase@ == "Succeeded"@)
                &&& r.1 matches InvokeAction::ReadLogs { pod: p } && p@ == pod@
            } else {
                r.0 == InvokeState::Watching { job_name } && r.1 is Wait
            },
        (InvokeState::Watching { job_name }, InvokeEvent::Deadline) => {
            &&& r.0 is Done
            &&& r.1 matches InvokeAction::Reply { result, delete_job }
                && delete_job matches Some(d) && d@ == job_name@ && is_status(result, 500, "Lambda timed out"@)
        },
        (InvokeState::Reading { job_name, succeeded }, InvokeEvent::Logs(l)) => {
            &&& r.0 is Done
            &&& r.1 matches InvokeAction::Reply { result, delete_job }
                && delete_job matches Some(d) && d@ == job_name@ && finished_answer(result, succeeded, l)
        },
        (s, _) => r.0 == s && r.1 is Wait,
    }
}

fn reply(result: InvocationResult) -> (r: (InvokeState, InvokeAction))
    ensures r.0 is Done, r.1 == (InvokeAction::Reply { result, delete_job: None }),
{
    (InvokeState::Done, InvokeAction::Reply { result, delete_job: None })
}

/// Takes one step of an invocation: from where it stands and what happened,
/// where it stands next and what to do.
pub fn invoke_step(inv: &Invocation, s: InvokeState, e: InvokeEvent) -> (r: (InvokeState, InvokeAction))
    ensures invoke_step_spec(*inv, s, e, r),
{
    match (s, e) {
        (InvokeState::Start, InvokeEvent::Started { cluster }) => {
            if cluster {
                (InvokeState::Looking, InvokeAction::Lookup)
            } else {
                reply(mock_result(inv.name.as_str()))
            }
        }
        (InvokeState::Looking, InvokeEvent::Row(row)) => match row {
            Err(LookupFailure::Missing) => reply(not_found_result(inv.name.as_str())),
            Err(LookupFailure::Database(m)) => reply(failure_result("DB error: ", m.as_str())),
            Ok(row) => {
                let image = function_image(row.image, &inv.runtime_image);
                match image {
                    None => reply(InvocationResult::Status(500, owned("No Lambda runtime image configured"))),
                    Some(i) => {
                        let job_name = invocation_job_name(inv.name.as_str(), inv.job_id.as_str());
                        (
                            InvokeState::Creating { job_name: job_name.clone(), timeout: row.timeout },
                            InvokeAction::CreateJob { job_name, image: i, handler: row.handler },
                        )
                    }
                }
            }
        },
        (InvokeState::Creating { job_name, timeout }, InvokeEvent::Created(res)) => match res {
            Ok(()) => {
                let label = job_pod_label(job_name.as_str());
                (InvokeState::Watching { job_name }, InvokeAction::Watch { label, deadline_secs: invocation_deadline_secs(timeout) })
            }
            Err(m) => reply(failure_result("Failed to create K8s Job: ", m.as_str())),
        },
        (InvokeState::Watching { job_name }, InvokeEvent::PodPhase { phase, pod }) => {
            if is_finished_phase(phase.as_str()) {
                let succeeded = crate::text::str_eq(phase.as_str(), "Succeeded");
                (InvokeState::Reading { job_name, succeeded }, InvokeAction::ReadLogs { pod })
            } else {
                (InvokeState::Watching { job_name }, InvokeAction::Wait)
            }
        }
        (InvokeState::Watching { job_name }, InvokeEvent::Deadline) => {
            (
                InvokeState::Done,
                InvokeAction::Reply {
                    result: InvocationResult::Status(500, owned("Lambda timed out")),
                    delete_job: Some(job_name),
                },
            )
        }
        (InvokeState::Reading { job_name, succeeded }, InvokeEvent::Logs(l)) => {
            (InvokeState::Done, InvokeAction::Reply { result: finished_result(succeeded, l), delete_job: Some(job_name) })
        }
        (s, _) => (s, InvokeAction::Wait),
    }
}

/// An answered invocation stays answered: whatever happens after, nothing
/// more is done.
pub proof fn lemma_done_is_final(inv: Invocation, e: InvokeEvent, r: (InvokeState, InvokeAction))
    requires invoke_step_spec(inv, InvokeState::Done, e, r),
    ensures r.0 is Done, r.1 is Wait,
{
}

/// A job once created is deleted before the invocation answers: an answer
/// given while the job's pods are watched or its logs are read names the job
/// to delete, and an answer given before the job exists names none.
pub proof fn lemma_created_job_is_deleted(inv: Invocation, s: InvokeState, e: InvokeEvent, r: (InvokeState, InvokeAction))
    requires invoke_step_spec(inv, s, e, r),
    ensures
        r.1 is Reply ==> match s {
            InvokeState::Watching { job_name } =>
                r.1 matches InvokeAction::Reply { delete_job, .. } && delete_job matches Some(d) && d@ == job_name@,
            InvokeState::Reading { job_name, .. } =>
                r.1 matches InvokeAction::Reply { delete_job, .. } && delete_job matches Some(d) && d@ == job_name@,
            _ => r.1 matches InvokeAction::Reply { delete_job, .. } && delete_job is None,
        },
{
}

/// An invocation waits at least thirteen seconds for its pod, and ten more
/// than the function's timeout.
pub proof fn lemma_deadline_covers_timeout(timeout: i32)
    ensures
        (if timeout < 3 { 3 } else { timeout as int }) + 10 >= 13,
        (if timeout < 3 { 3 } else { timeout as int }) + 10 >= timeout + 10,
{
}
} // verus!
