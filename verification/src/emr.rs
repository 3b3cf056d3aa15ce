//! EMR: identifiers of clusters and steps, the states of job runs and what
//! moves a job run from one state to the next.
use vstd::prelude::*;
use crate::text::{chars_of, owned, concat2, push_char, string_of_range, char_width, utf8_width, width, lemma_width_grows};
use crate::config::{is_uuid_text, new_uuid_text};
use crate::spark::SparkSubmitDriver;

verus! {

/// The states of a job run.
#[derive(Debug, Clone, Copy, PartialEq, Eq, Structural)]
pub enum JobRunState {
    Submitted,
    Running,
    Completed,
    Failed,
    Cancelled,
}

impl JobRunState {
    pub open spec fn spec_name(self) -> Seq<char> {
        match self {
            JobRunState::Submitted => "SUBMITTED"@,
            JobRunState::Running => "RUNNING"@,
            JobRunState::Completed => "COMPLETED"@,
            JobRunState::Failed => "FAILED"@,
            JobRunState::Cancelled => "CANCELLED"@,
        }
    }

    /// The name the API and the database use for the state.
    pub fn name(&self) -> (s: &'static str)
        ensures s@ == self.spec_name(),
    {
        match self {
            JobRunState::Submitted => "SUBMITTED",
            JobRunState::Running => "RUNNING",
            JobRunState::Completed => "COMPLETED",
            JobRunState::Failed => "FAILED",
            JobRunState::Cancelled => "CANCELLED",
        }
    }

    /// The state is final: no event moves the job run on.
    pub open spec fn is_final(self) -> bool {
        self is Completed || self is Failed || self is Cancelled
    }
}

/// The state a job run moves to when its driver pod is seen in `phase`:
/// `Succeeded` completes it, `Failed` or `Unknown` fails it, any other phase
/// leaves it as it is.
pub open spec fn state_for_phase(phase: Seq<char>) -> Option<JobRunState> {
    if phase == "Succeeded"@ {
        Some(JobRunState::Completed)
    } else if phase == "Failed"@ || phase == "Unknown"@ {
        Some(JobRunState::Failed)
    } else {
        None
    }
}

/// Reads the state a driver pod's phase moves its job run to.
pub fn job_state_for_phase(phase: &str) -> (r: Option<JobRunState>)
    ensures r == state_for_phase(phase@),
{
    if crate::text::str_eq(phase, "Succeeded") {
        Some(JobRunState::Completed)
    } else if crate::text::str_eq(phase, "Failed") || crate::text::str_eq(phase, "Unknown") {
        Some(JobRunState::Failed)
    } else {
        None
    }
}

/// The state a new job run reports: `FAILED` where its Kubernetes job could
/// not be submitted, `RUNNING` otherwise (also where no cluster is reachable).
pub fn state_after_submit(submit_failed: bool) -> (s: JobRunState)
    ensures s == (if submit_failed { JobRunState::Failed } else { JobRunState::Running }),
{
    if submit_failed { JobRunState::Failed } else { JobRunState::Running }
}

/// The state and exit code the agent's report records: a completion report
/// completes the run (exit code 0 where none is given), a failure report fails
/// it (exit code 1 where none is given).
pub fn report_outcome(completed: bool, exit_code: Option<i64>) -> (r: (JobRunState, i64))
    ensures
        r.0 == (if completed { JobRunState::Completed } else { JobRunState::Failed }),
        r.1 == (match exit_code {
            Some(c) => c,
            None => if completed { 0i64 } else { 1i64 },
        }),
{
    let code = match exit_code {
        Some(c) => c,
        None => if completed { 0 } else { 1 },
    };
    (if completed { JobRunState::Completed } else { JobRunState::Failed }, code)
}

/// The state a stored name stands for, where it names one.
pub open spec fn state_named(name: Seq<char>) -> Option<JobRunState> {
    if name == "SUBMITTED"@ {
        Some(JobRunState::Submitted)
    } else if name == "RUNNING"@ {
        Some(JobRunState::Running)
    } else if name == "COMPLETED"@ {
        Some(JobRunState::Completed)
    } else if name == "FAILED"@ {
        Some(JobRunState::Failed)
    } else if name == "CANCELLED"@ {
        Some(JobRunState::Cancelled)
    } else {
        None
    }
}

impl JobRunState {
    /// Reads a stored state name.
    pub fn from_name(name: &str) -> (r: Option<JobRunState>)
        ensures
            r == state_named(name@),
            r matches Some(s) ==> s.spec_name() == name@,
    {
        proof {
            reveal_strlit("SUBMITTED");
            reveal_strlit("RUNNING");
            reveal_strlit("COMPLETED");
            reveal_strlit("FAILED");
            reveal_strlit("CANCELLED");
        }
        if crate::text::str_eq(name, "SUBMITTED") {
            Some(JobRunState::Submitted)
        } else if crate::text::str_eq(name, "RUNNING") {
            Some(JobRunState::Running)
        } else if crate::text::str_eq(name, "COMPLETED") {
            Some(JobRunState::Completed)
        } else if crate::text::str_eq(name, "FAILED") {
            Some(JobRunState::Failed)
        } else if crate::text::str_eq(name, "CANCELLED") {
            Some(JobRunState::Cancelled)
        } else {
            None
        }
    }
}

/// What can happen to a job run.
pub enum JobEvent {
    /// The watcher saw the run's driver pod in this phase.
    PodPhase(String),
    /// The watcher found the run's `_SUCCESS` marker in the S3 store.
    SuccessMarker,
    /// The agent in the driver reported the end of `spark-submit`.
    AgentReport { completed: bool },
    /// A user cancelled the run.
    Cancel,
    /// The classic cluster the run belongs to was terminated.
    ClusterTerminated,
}

/// A job run the watcher looks at: one submitted or running.
pub open spec fn is_watched(s: JobRunState) -> bool {
    s is Submitted || s is Running
}

/// The state a job run is in after `event`. The watcher looks only at runs
/// submitted or running: a pod phase moves them as `state_for_phase` says, and
/// a `_SUCCESS` marker completes a running run. The agent's report and a
/// cancellation set the state whatever it was; terminating the cluster
/// cancels the runs that have not finished.
pub open spec fn job_step(s: JobRunState, event: JobEvent) -> JobRunState {
    match event {
        JobEvent::PodPhase(p) => if is_watched(s) {
            match state_for_phase(p@) {
                Some(t) => t,
                None => s,
            }
        } else {
            s
        },
        JobEvent::SuccessMarker => if s is Running { JobRunState::Completed } else { s },
        JobEvent::AgentReport { completed } => if completed { JobRunState::Completed } else { JobRunState::Failed },
        JobEvent::Cancel => JobRunState::Cancelled,
        JobEvent::ClusterTerminated => if s.is_final() { s } else { JobRunState::Cancelled },
    }
}

/// The state a job run moves to on `event`.
pub fn next_job_state(s: JobRunState, event: &JobEvent) -> (r: JobRunState)
    ensures r == job_step(s, *event),
{
    match event {
        JobEvent::PodPhase(p) => {
            if matches!(s, JobRunState::Submitted) || matches!(s, JobRunState::Running) {
                match job_state_for_phase(p.as_str()) {
                    Some(t) => t,
                    None => s,
                }
            } else {
                s
            }
        }
        JobEvent::SuccessMarker => if matches!(s, JobRunState::Running) { JobRunState::Completed } else { s },
        JobEvent::AgentReport { completed } => if *completed { JobRunState::Completed } else { JobRunState::Failed },
        JobEvent::Cancel => JobRunState::Cancelled,
        JobEvent::ClusterTerminated => match s {
            JobRunState::Completed | JobRunState::Failed | JobRunState::Cancelled => s,
            _ => JobRunState::Cancelled,
        },
    }
}

/// The event the watcher sends when a run's driver pod is seen in `phase`:
/// the run's success notification where the pod succeeded, none otherwise.
pub fn pod_phase_event(vc_id: &str, job_id: &str, phase: &str) -> (r: Option<crate::events::BusEvent>)
    ensures
        phase@ == "Succeeded"@ ==> (r matches Some(e) && e matches crate::events::BusEvent::S3Notification { bucket, key, target_arn, target_type }
            && bucket@ == "emr-"@ + vc_id@
            && key@ == "jobs/"@ + job_id@ + "/_SUCCESS"@
            && target_arn@ == "arn:aws:emr-containers:us-east-1:000000000000:/virtualclusters/"@ + vc_id@ + "/jobruns/"@ + job_id@
            && target_type@ == "emr"@),
        phase@ != "Succeeded"@ ==> r is None,
{
    if crate::text::str_eq(phase, "Succeeded") {
        Some(crate::events::emr_success_event(vc_id, job_id))
    } else {
        None
    }
}

/// Neither the watcher nor the termination of the cluster moves a finished
/// run: a run completed, failed or cancelled keeps its state whatever pod
/// phase or marker is seen, and when its cluster is terminated.
pub proof fn lemma_watcher_keeps_finished_runs(s: JobRunState, phase: String)
    requires s.is_final(),
    ensures
        job_step(s, JobEvent::PodPhase(phase)) == s,
        job_step(s, JobEvent::SuccessMarker) == s,
        job_step(s, JobEvent::ClusterTerminated) == s,
{
}

/// A run that is not finished completes only on a succeeded driver pod, on a
/// marker while it runs, or on a completion report; a cancellation, or the
/// termination of its cluster, cancels it.
pub proof fn lemma_completion_sources(s: JobRunState, event: JobEvent)
    requires !s.is_final(),
    ensures
        job_step(s, event) is Completed ==> (match event {
            JobEvent::PodPhase(p) => p@ == "Succeeded"@,
            JobEvent::SuccessMarker => s is Running,
            JobEvent::AgentReport { completed } => completed,
            JobEvent::Cancel => false,
            JobEvent::ClusterTerminated => false,
        }),
        event is Cancel ==> job_step(s, event) is Cancelled,
        event is ClusterTerminated ==> job_step(s, event) is Cancelled,
{
}

/// The driver pod's phase decides a watched run alike whether it was submitted
/// or running: `Succeeded` completes it, `Failed` or `Unknown` fails it, and any
/// other phase leaves it where it was.
pub proof fn lemma_pod_phase_outcome(s: JobRunState, phase: String)
    requires s is Submitted || s is Running,
    ensures
        phase@ == "Succeeded"@ ==> job_step(s, JobEvent::PodPhase(phase)) == JobRunState::Completed,
        phase@ == "Failed"@ ==> job_step(s, JobEvent::PodPhase(phase)) == JobRunState::Failed,
        phase@ == "Unknown"@ ==> job_step(s, JobEvent::PodPhase(phase)) == JobRunState::Failed,
        phase@ != "Succeeded"@ && phase@ != "Failed"@ && phase@ != "Unknown"@
            ==> job_step(s, JobEvent::PodPhase(phase)) == s,
{
    reveal_strlit("Succeeded");
    reveal_strlit("Failed");
    reveal_strlit("Unknown");
    assert("Failed"@.len() != "Succeeded"@.len());
    assert("Unknown"@.len() != "Succeeded"@.len());
}

/// A cancelled run stays cancelled under everything but a report of its agent.
pub proof fn lemma_cancelled_stays(event: JobEvent)
    requires !(event is AgentReport),
    ensures job_step(JobRunState::Cancelled, event) is Cancelled,
{
}

/// Byte `n` of `s` starts a character (or is the end): slicing there is allowed.
pub open spec fn is_byte_boundary(s: Seq<char>, n: nat) -> bool {
    exists|k: int| 0 <= k <= s.len() && utf8_width(#[trigger] s.take(k)) == n
}

/// The number of characters that make up the first `n` bytes of `s`.
fn chars_in_bytes(s: &Vec<char>, n: usize) -> (k: usize)
    requires is_byte_boundary(s@, n as nat),
    ensures k <= s.len(), utf8_width(s@.take(k as int)) == n,
{
    let ghost target = choose|k: int| 0 <= k <= s@.len() && utf8_width(#[trigger] s@.take(k)) == n;
    let mut k: usize = 0;
    let mut w: usize = 0;
    assert(s@.take(0) =~= Seq::<char>::empty());
    while w < n
        invariant
            0 <= k <= s.len(),
            0 <= target <= s@.len(),
            utf8_width(s@.take(target)) == n,
            w == utf8_width(s@.take(k as int)),
            w <= n,
            k <= target,
        decreases n - w,
    {
        proof {
            if k as int >= target {
                lemma_width_grows(s@, target, k as int);
            }
        }
        let c = s[k];
        assert(s@.take(k + 1).drop_last() =~= s@.take(k as int));
        proof {
            lemma_width_grows(s@, k + 1, target);
        }
        w = w + width(c);
        k += 1;
    }
    k
}

/// The id of the step that runs as job run `jr_id`: `s-` and the first eight
/// bytes of the job run's id.
pub fn sid(jr_id: &str) -> (r: String)
    requires is_byte_boundary(jr_id@, 8),
    ensures exists|k: int| 0 <= k <= jr_id@.len() && utf8_width(jr_id@.take(k)) == 8 && r@ == "s-"@ + jr_id@.take(k),
{
    let cs = chars_of(jr_id);
    let k = chars_in_bytes(&cs, 8);
    let head = string_of_range(&cs, 0, k);
    let r = concat2("s-", head.as_str());
    assert(head@ =~= jr_id@.take(k as int));
    r
}

/// The pattern a step id matches its job run by: the id without its first
/// two bytes, followed by `%`; empty where the id has no more than two bytes.
pub fn step_pattern(sid_raw: &str) -> (r: String)
    requires utf8_width(sid_raw@) > 2 ==> is_byte_boundary(sid_raw@, 2),
    ensures
        utf8_width(sid_raw@) <= 2 ==> r@ == Seq::<char>::empty(),
        utf8_width(sid_raw@) > 2 ==> exists|k: int| 0 <= k <= sid_raw@.len() && utf8_width(sid_raw@.take(k)) == 2
            && r@ == sid_raw@.skip(k).push('%'),
{
    let cs = chars_of(sid_raw);
    let mut total: usize = 0;
    let mut i: usize = 0;
    assert(cs@.take(0) =~= Seq::<char>::empty());
    while i < cs.len() && total <= 2
        invariant
            cs@ == sid_raw@,
            0 <= i <= cs.len(),
            total == utf8_width(cs@.take(i as int)),
        decreases cs.len() - i,
    {
        assert(cs@.take(i + 1).drop_last() =~= cs@.take(i as int));
        total = total + width(cs[i]);
        i += 1;
    }
    proof {
        assert(cs@.take(cs@.len() as int) =~= cs@);
        lemma_width_grows(cs@, i as int, cs@.len() as int);
    }
    if total <= 2 {
        assert(cs@.take(i as int) =~= cs@);
        return String::new();
    }
    let k = chars_in_bytes(&cs, 2);
    let mut r = string_of_range(&cs, k, cs.len());
    push_char(&mut r, '%');
    assert(r@ =~= sid_raw@.skip(k as int).push('%'));
    r
}

/// The id a listed step shows: the step id stored with its job run, or the
/// id derived from the job run's id where none is stored.
pub fn listed_step_id(stored: &str, jr_id: &str) -> (r: String)
    requires stored@.len() == 0 ==> is_byte_boundary(jr_id@, 8),
    ensures
        stored@.len() > 0 ==> r@ == stored@,
        stored@.len() == 0 ==> exists|k: int| 0 <= k <= jr_id@.len() && utf8_width(jr_id@.take(k)) == 8 && r@ == "s-"@ + jr_id@.take(k),
{
    if stored.is_empty() { sid(jr_id) } else { owned(stored) }
}

/// Routes requests whose target begins with `ElasticMapReduce` to classic EMR.
pub struct EmrClassicGuard;

impl EmrClassicGuard {
    pub fn check(&self, target: Option<&str>) -> (b: bool)
        ensures b == (match target { Some(t) => "ElasticMapReduce"@.is_prefix_of(t@), None => false }),
    {
        crate::targets::is_emr_classic_target(target)
    }
}

/// A fresh job flow id: `j-` and the first eight characters of a random UUID.
pub fn jfid() -> (r: String)
    ensures
        r@.len() == 10,
        r@[0] == 'j' && r@[1] == '-',
        forall|i: int| 2 <= i < 10 ==> ('0' <= #[trigger] r@[i] && r@[i] <= '9') || ('a' <= r@[i] && r@[i] <= 'f'),
{
    let u = new_uuid_text();
    let cs = chars_of(u.as_str());
    let head = string_of_range(&cs, 0, 8);
    let mut r = owned("j-");
    proof {
        reveal_strlit("j-");
    }
    r.append(head.as_str());
    assert forall|i: int| 2 <= i < 10 implies ('0' <= #[trigger] r@[i] && r@[i] <= '9') || ('a' <= r@[i] && r@[i] <= 'f') by {
        assert(r@[i] == u@[i - 2]);
    }
    r
}

/// The name of the Kubernetes job of a step: `emr-step-{id}`.
pub fn step_job_name(id: &str) -> (r: String)
    ensures r@ == "emr-step-"@ + id@,
{
    concat2("emr-step-", id)
}

/// The name of the Kubernetes job of a job run: `emr-job-{id}`.
pub fn run_job_name(id: &str) -> (r: String)
    ensures r@ == "emr-job-"@ + id@,
{
    concat2("emr-job-", id)
}

/// The label that marks the pods of a job run: `awsem-job-run-id={id}`.
pub fn job_run_label(id: &str) -> (r: String)
    ensures r@ == "awsem-job-run-id="@ + id@,
{
    concat2("awsem-job-run-id=", id)
}

/// The driver a step runs: its jar (the Pi example where none is given) with
/// its arguments, and no extra `spark-submit` parameters.
pub fn step_driver(jar: Option<String>, args: Vec<String>) -> (d: SparkSubmitDriver)
    ensures
        d.entry_point matches Some(e) && e@ == (match jar {
            Some(j) => j@,
            None => "local:///opt/spark/examples/src/main/python/pi.py"@,
        }),
        d.entry_point_arguments@.len() == args@.len(),
        forall|i: int| 0 <= i < args@.len() ==> #[trigger] d.entry_point_arguments@[i] == Some(args@[i]),
        d.spark_submit_parameters matches Some(p) && p@ == Seq::<char>::empty(),
{
    let entry = match jar {
        Some(j) => j,
        None => owned("local:///opt/spark/examples/src/main/python/pi.py"),
    };
    let mut wrapped: Vec<Option<String>> = Vec::new();
    let mut i: usize = 0;
    while i < args.len()
        invariant
            0 <= i <= args.len(),
            wrapped@.len() == i,
            forall|j: int| 0 <= j < i ==> #[trigger] wrapped@[j] == Some(args@[j]),
        decreases args.len() - i,
    {
        wrapped.push(Some(args[i].clone()));
        i += 1;
    }
    SparkSubmitDriver { entry_point: Some(entry), entry_point_arguments: wrapped, spark_submit_parameters: Some(String::new()) }
}

/// The address at which the S3 store holds a job run's `_SUCCESS` marker:
/// `{rustfs_url}/emr-{vc_id}/jobs/{id}/_SUCCESS`; none where no store is known.
pub fn success_marker_url(rustfs_url: &str, vc_id: &str, id: &str) -> (r: Option<String>)
    ensures
        rustfs_url@.len() == 0 ==> r is None,
        rustfs_url@.len() > 0 ==> (r matches Some(u) && u@ == rustfs_url@ + "/emr-"@ + vc_id@ + "/jobs/"@ + id@ + "/_SUCCESS"@),
{
    if rustfs_url.is_empty() {
        return None;
    }
    let mut u = concat2(rustfs_url, "/emr-");
    u.append(vc_id);
    u.append("/jobs/");
    u.append(id);
    u.append("/_SUCCESS");
    Some(u)
}

/// The time an SQLite timestamp `%Y-%m-%d %H:%M:%S` names, in RFC 3339 form
/// (UTC), or `None` where the text is no such timestamp.
pub uninterp spec fn sqlite_time_rfc3339(ts: Seq<char>) -> Option<Seq<char>>;

/// Parses an SQLite timestamp and prints it in RFC 3339 form
/// (`chrono::NaiveDateTime::parse_from_str` with `%Y-%m-%d %H:%M:%S`, then
/// `and_utc().to_rfc3339()`).
#[verifier::external_body]
fn parse_sqlite_time(ts: &str) -> (r: Option<String>)
    ensures
        match r {
            Some(t) => sqlite_time_rfc3339(ts@) == Some(t@),
            None => sqlite_time_rfc3339(ts@) is None,
        },
{
    match chrono::NaiveDateTime::parse_from_str(ts, "%Y-%m-%d %H:%M:%S") {
        Ok(dt) => Some(dt.and_utc().to_rfc3339()),
        Err(_) => None,
    }
}

/// An SQLite timestamp in RFC 3339 form; text that is no such timestamp is
/// kept as it is.
pub fn to_rfc3339(sqlite_ts: &str) -> (r: String)
    ensures
        r@ == (match sqlite_time_rfc3339(sqlite_ts@) {
            Some(t) => t,
            None => sqlite_ts@,
        }),
{
    match parse_sqlite_time(sqlite_ts) {
        Some(t) => t,
        None => owned(sqlite_ts),
    }
}

} // verus!
