use awsem::agent::{agent_logs, spawn_failure_logs};
use awsem::emr::{next_job_state, pod_phase_event, JobEvent, JobRunState};
use awsem::error::AwsemError;
use awsem::events::{trigger_plan, BusEvent, TriggerPlan};
use awsem::lambda::{
    check_function_name, invoke_step, FunctionRow, InvocationResult, Invocation, InvokeAction, InvokeEvent,
    InvokeState, LookupFailure,
};
use awsem::notification::{marker_events, proxied_marker};
use awsem::s3::{pvc_next, PvcAction, PvcOutcome, PVC_ATTEMPTS};
use awsem::secrets::latest_version;

const ALL: [JobRunState; 5] = [
    JobRunState::Submitted,
    JobRunState::Running,
    JobRunState::Completed,
    JobRunState::Failed,
    JobRunState::Cancelled,
];

fn is_final(s: JobRunState) -> bool {
    matches!(s, JobRunState::Completed | JobRunState::Failed | JobRunState::Cancelled)
}

// ---- job-run states ----

#[test]
fn state_names_read_back() {
    for s in ALL {
        assert_eq!(JobRunState::from_name(s.name()), Some(s));
    }
    assert_eq!(JobRunState::from_name("running"), None);
    assert_eq!(JobRunState::from_name(""), None);
}

#[test]
fn pod_phases_move_watched_runs() {
    assert_eq!(next_job_state(JobRunState::Running, &JobEvent::PodPhase("Succeeded".into())), JobRunState::Completed);
    assert_eq!(next_job_state(JobRunState::Submitted, &JobEvent::PodPhase("Failed".into())), JobRunState::Failed);
    assert_eq!(next_job_state(JobRunState::Running, &JobEvent::PodPhase("Unknown".into())), JobRunState::Failed);
    assert_eq!(next_job_state(JobRunState::Running, &JobEvent::PodPhase("Pending".into())), JobRunState::Running);
}

#[test]
fn marker_completes_only_running_runs() {
    assert_eq!(next_job_state(JobRunState::Running, &JobEvent::SuccessMarker), JobRunState::Completed);
    assert_eq!(next_job_state(JobRunState::Submitted, &JobEvent::SuccessMarker), JobRunState::Submitted);
}

#[test]
fn finished_runs_stay_finished_under_watcher() {
    for s in ALL.into_iter().filter(|s| is_final(*s)) {
        for p in ["Succeeded", "Failed", "Unknown", "Running"] {
            assert_eq!(next_job_state(s, &JobEvent::PodPhase(p.into())), s);
        }
        assert_eq!(next_job_state(s, &JobEvent::SuccessMarker), s);
        assert_eq!(next_job_state(s, &JobEvent::ClusterTerminated), s);
    }
}

#[test]
fn reports_and_cancellation_set_state() {
    for s in ALL {
        assert_eq!(next_job_state(s, &JobEvent::AgentReport { completed: true }), JobRunState::Completed);
        assert_eq!(next_job_state(s, &JobEvent::AgentReport { completed: false }), JobRunState::Failed);
        assert_eq!(next_job_state(s, &JobEvent::Cancel), JobRunState::Cancelled);
    }
    assert_eq!(next_job_state(JobRunState::Running, &JobEvent::ClusterTerminated), JobRunState::Cancelled);
    assert_eq!(next_job_state(JobRunState::Submitted, &JobEvent::ClusterTerminated), JobRunState::Cancelled);
}

#[test]
fn succeeded_pod_sends_notification() {
    match pod_phase_event("vc", "jr", "Succeeded") {
        Some(BusEvent::S3Notification { bucket, key, target_arn, target_type }) => {
            assert_eq!(bucket, "emr-vc");
            assert_eq!(key, "jobs/jr/_SUCCESS");
            assert_eq!(target_arn, "arn:aws:emr-containers:us-east-1:000000000000:/virtualclusters/vc/jobruns/jr");
            assert_eq!(target_type, "emr");
        }
        other => panic!("unexpected {other:?}"),
    }
    assert!(pod_phase_event("vc", "jr", "Failed").is_none());
    assert!(pod_phase_event("vc", "jr", "Running").is_none());
}

// ---- volume claim retries ----

#[test]
fn pvc_retries_conflicts_until_attempts_run_out() {
    assert_eq!(pvc_next(0, &PvcOutcome::Created), PvcAction::Proceed);
    assert_eq!(pvc_next(0, &PvcOutcome::Conflict), PvcAction::DeleteAndRetry);
    assert_eq!(pvc_next(8, &PvcOutcome::Conflict), PvcAction::DeleteAndRetry);
    assert_eq!(pvc_next(9, &PvcOutcome::Conflict), PvcAction::GiveUp);
    assert_eq!(pvc_next(3, &PvcOutcome::Failed), PvcAction::GiveUp);
    for attempt in 0..PVC_ATTEMPTS {
        let last = attempt + 1 == PVC_ATTEMPTS;
        assert_eq!(pvc_next(attempt, &PvcOutcome::Conflict) == PvcAction::DeleteAndRetry, !last);
    }
}

// ---- S3 markers ----

#[test]
fn proxied_uploads_that_mark() {
    assert_eq!(proxied_marker(200, "PUT", "/b/out/_SUCCESS"), Some(("b".to_string(), "out/_SUCCESS".to_string())));
    assert_eq!(proxied_marker(204, "PUT", "/b/_SUCCESS"), Some(("b".to_string(), "_SUCCESS".to_string())));
    assert_eq!(proxied_marker(403, "PUT", "/b/out/_SUCCESS"), None);
    assert_eq!(proxied_marker(200, "GET", "/b/out/_SUCCESS"), None);
    assert_eq!(proxied_marker(200, "PUT", "/b/out/part-0"), None);
}

#[test]
fn marker_notifies_every_target() {
    let targets = vec![("arn:q".to_string(), "SQS".to_string()), ("arn:f".to_string(), "Lambda".to_string())];
    let events = marker_events("b", "out/_SUCCESS", &targets);
    assert_eq!(events.len(), 2);
    for (e, (arn, kind)) in events.iter().zip(targets.iter()) {
        match e {
            BusEvent::S3Notification { bucket, key, target_arn, target_type } => {
                assert_eq!(bucket, "b");
                assert_eq!(key, "out/_SUCCESS");
                assert_eq!(target_arn, arn);
                assert_eq!(target_type, kind);
            }
            other => panic!("unexpected {other:?}"),
        }
    }
    assert!(marker_events("b", "out/data", &targets).is_empty());
}

// ---- Lambda trigger ----

#[test]
fn trigger_plans() {
    let e = BusEvent::S3Notification {
        bucket: "b".into(),
        key: "k".into(),
        target_arn: "arn:aws:lambda:us-east-1:0:function:f".into(),
        target_type: "Lambda".into(),
    };
    match trigger_plan(&e) {
        TriggerPlan::Dispatch { direct_arn, source_arn, bucket, key } => {
            assert_eq!(direct_arn.as_deref(), Some("arn:aws:lambda:us-east-1:0:function:f"));
            assert_eq!(source_arn, "arn:aws:s3:::b");
            assert_eq!((bucket.as_str(), key.as_str()), ("b", "k"));
        }
        TriggerPlan::Ignore => panic!("notification ignored"),
    }
    let e = BusEvent::S3Notification { bucket: "b".into(), key: "k".into(), target_arn: "a".into(), target_type: "SQS".into() };
    match trigger_plan(&e) {
        TriggerPlan::Dispatch { direct_arn, .. } => assert!(direct_arn.is_none()),
        TriggerPlan::Ignore => panic!("notification ignored"),
    }
    let e = BusEvent::LambdaInvocation { function_arn: "a".into(), payload: "{}".into() };
    assert!(matches!(trigger_plan(&e), TriggerPlan::Ignore));
}

// ---- Spark agent ----

#[test]
fn agent_log_text() {
    assert_eq!(agent_logs("out", ""), "out");
    assert_eq!(agent_logs("out", "err"), "out\nerr");
    assert_eq!(agent_logs("", "err"), "\nerr");
    assert_eq!(spawn_failure_logs("not found"), "Failed to execute spark-submit: not found");
}

// ---- Lambda invocation ----

fn inv(runtime_image: Option<&str>) -> Invocation {
    Invocation { name: "f".into(), job_id: "j1".into(), runtime_image: runtime_image.map(|s| s.to_string()) }
}

fn reply(a: InvokeAction) -> (InvocationResult, Option<String>) {
    match a {
        InvokeAction::Reply { result, delete_job } => (result, delete_job),
        _ => panic!("expected a reply"),
    }
}

fn status_of(r: InvocationResult) -> (u16, String) {
    match r {
        InvocationResult::Status(c, b) => (c, b),
        InvocationResult::Output(o) => panic!("unexpected output {o}"),
    }
}

#[test]
fn invocation_without_cluster_is_mocked() {
    let (s, a) = invoke_step(&inv(None), InvokeState::Start, InvokeEvent::Started { cluster: false });
    assert!(matches!(s, InvokeState::Done));
    let (r, d) = reply(a);
    assert_eq!(status_of(r), (200, "Hello from awsem Lambda (f)!".to_string()));
    assert!(d.is_none());
}

#[test]
fn invocation_runs_to_its_output() {
    let i = inv(Some("rt:img"));
    let (s, a) = invoke_step(&i, InvokeState::Start, InvokeEvent::Started { cluster: true });
    assert!(matches!(a, InvokeAction::Lookup));
    let row = FunctionRow { handler: "app.handler".into(), image: None, timeout: 1 };
    let (s, a) = invoke_step(&i, s, InvokeEvent::Row(Ok(row)));
    match a {
        InvokeAction::CreateJob { job_name, image, handler } => {
            assert_eq!(job_name, "lambda-f-j1");
            assert_eq!(image, "rt:img");
            assert_eq!(handler, "app.handler");
        }
        _ => panic!("expected job creation"),
    }
    let (s, a) = invoke_step(&i, s, InvokeEvent::Created(Ok(())));
    match a {
        InvokeAction::Watch { label, deadline_secs } => {
            assert_eq!(label, "job-name=lambda-f-j1");
            assert_eq!(deadline_secs, 13);
        }
        _ => panic!("expected a watch"),
    }
    let (s, a) = invoke_step(&i, s, InvokeEvent::PodPhase { phase: "Running".into(), pod: "p1".into() });
    assert!(matches!(a, InvokeAction::Wait));
    let (s, a) = invoke_step(&i, s, InvokeEvent::PodPhase { phase: "Succeeded".into(), pod: "p1".into() });
    match a {
        InvokeAction::ReadLogs { pod } => assert_eq!(pod, "p1"),
        _ => panic!("expected reading the logs"),
    }
    let (s, a) = invoke_step(&i, s, InvokeEvent::Logs(Ok("  42 \n".into())));
    assert!(matches!(s, InvokeState::Done));
    let (r, d) = reply(a);
    assert_eq!(d.as_deref(), Some("lambda-f-j1"));
    match r {
        InvocationResult::Output(o) => assert_eq!(o, "42"),
        _ => panic!("expected output"),
    }
}

#[test]
fn invocation_failures() {
    let i = inv(None);
    let (r, _) = reply(invoke_step(&i, InvokeState::Looking, InvokeEvent::Row(Err(LookupFailure::Missing))).1);
    assert_eq!(status_of(r), (404, "Function f not found".to_string()));
    let (r, _) = reply(invoke_step(&i, InvokeState::Looking, InvokeEvent::Row(Err(LookupFailure::Database("locked".into())))).1);
    assert_eq!(status_of(r), (500, "DB error: locked".to_string()));
    let row = FunctionRow { handler: "h".into(), image: None, timeout: 3 };
    let (r, _) = reply(invoke_step(&i, InvokeState::Looking, InvokeEvent::Row(Ok(row))).1);
    assert_eq!(status_of(r), (500, "No Lambda runtime image configured".to_string()));
    let creating = InvokeState::Creating { job_name: "lambda-f-j1".into(), timeout: 3 };
    let (r, d) = reply(invoke_step(&i, creating, InvokeEvent::Created(Err("quota".into()))).1);
    assert_eq!(status_of(r), (500, "Failed to create K8s Job: quota".to_string()));
    assert!(d.is_none());
    let watching = InvokeState::Watching { job_name: "lambda-f-j1".into() };
    let (r, d) = reply(invoke_step(&i, watching, InvokeEvent::Deadline).1);
    assert_eq!(status_of(r), (500, "Lambda timed out".to_string()));
    assert_eq!(d.as_deref(), Some("lambda-f-j1"));
    let reading = InvokeState::Reading { job_name: "lambda-f-j1".into(), succeeded: false };
    let (r, _) = reply(invoke_step(&i, reading, InvokeEvent::Logs(Ok("trace".into()))).1);
    assert_eq!(status_of(r), (500, "trace".to_string()));
}

#[test]
fn invocation_ignores_out_of_order_events() {
    let i = inv(None);
    let (s, a) = invoke_step(&i, InvokeState::Done, InvokeEvent::Deadline);
    assert!(matches!(s, InvokeState::Done));
    assert!(matches!(a, InvokeAction::Wait));
    let (s, a) = invoke_step(&i, InvokeState::Looking, InvokeEvent::Deadline);
    assert!(matches!(s, InvokeState::Looking));
    assert!(matches!(a, InvokeAction::Wait));
}

#[test]
fn function_name_checks() {
    assert!(check_function_name("ok_name-1").is_ok());
    match check_function_name("") {
        Err(AwsemError::InvalidRequest(m)) => assert_eq!(m, "Invalid FunctionName: name must not be empty"),
        _ => panic!("empty name accepted"),
    }
    match check_function_name("a/b") {
        Err(AwsemError::InvalidRequest(m)) => {
            assert_eq!(m, "Invalid FunctionName: name can only contain letters, numbers, hyphens, and underscores")
        }
        _ => panic!("bad name accepted"),
    }
}

#[test]
fn escaped_logs_are_one_line() {
    let raw = "line one\n\"quoted\"\r\n\ttabbed \\ end";
    let e = awsem::agent::escape_logs(raw);
    assert!(!e.contains('\n') && !e.contains('\r') && !e.contains('\t'));
    let b = e.as_bytes();
    for (i, c) in b.iter().enumerate() {
        if *c == b'"' {
            assert!(i > 0 && b[i - 1] == b'\\');
        }
    }
    let v: serde_json::Value = serde_json::from_str(&format!("\"{e}\"")).unwrap();
    assert_eq!(v.as_str(), Some(raw));
}

#[test]
fn target_kinds_and_marker_shape() {
    let config = "<QueueArn>a</QueueArn>\n<TopicArn>b</TopicArn>\n<CloudFunctionArn>c</CloudFunctionArn>\n<Other>d</Other>";
    for (_, kind) in awsem::notification::parse_event_targets(config) {
        assert!(kind == "SQS" || kind == "SNS" || kind == "Lambda");
    }
    let (bucket, key) = awsem::notification::success_marker_target("/b/x/y/_SUCCESS").unwrap();
    assert!(!bucket.contains('/'));
    assert!(key.ends_with("_SUCCESS"));
}

#[test]
fn deadlines_cover_the_timeout() {
    for t in [-5, 0, 2, 3, 4, 900] {
        let d = awsem::lambda::invocation_deadline_secs(t);
        assert!(d >= 13);
        assert!(d as i64 >= t as i64 + 10);
    }
}

fn stored(id: &str, value: &str, at: &str) -> awsem::secrets::StoredVersion {
    awsem::secrets::StoredVersion { version_id: id.into(), value: value.into(), created_at: at.into() }
}

#[test]
fn latest_version_is_the_last_stored() {
    assert_eq!(latest_version(&vec![]), None);
    let vs = vec![
        stored("v1", "first", "2024-05-01 10:00:00"),
        stored("v3", "third", "2024-05-01T10:00:02.000001+00:00"),
        stored("v2", "second", "2024-05-01T10:00:01.5+00:00"),
    ];
    assert_eq!(latest_version(&vs), Some(1));
    let tie = vec![stored("a", "x", "2024-01-01 00:00:00"), stored("b", "y", "2024-01-01 00:00:00")];
    assert_eq!(latest_version(&tie), Some(0));
}

#[test]
fn read_after_write() {
    let mut vs = vec![stored("v1", "old", "2024-05-01 10:00:00")];
    vs.push(stored("v2", "new", "2024-05-01T10:00:00.1+00:00"));
    let i = latest_version(&vs).unwrap();
    assert_eq!(vs[i].value, "new");
    vs.push(stored("v3", "newer", "2024-05-02T00:00:00+00:00"));
    let i = latest_version(&vs).unwrap();
    assert_eq!(vs[i].value, "newer");
}

fn serde_payload(bucket: &str, key: &str) -> String {
    let mut b = serde_json::Map::new();
    b.insert("name".to_string(), serde_json::Value::String(bucket.to_string()));
    let mut o = serde_json::Map::new();
    o.insert("key".to_string(), serde_json::Value::String(key.to_string()));
    let mut s3 = serde_json::Map::new();
    s3.insert("bucket".to_string(), serde_json::Value::Object(b));
    s3.insert("object".to_string(), serde_json::Value::Object(o));
    let mut rec = serde_json::Map::new();
    rec.insert("eventSource".to_string(), serde_json::Value::String("aws:s3".to_string()));
    rec.insert("eventName".to_string(), serde_json::Value::String("ObjectCreated:Put".to_string()));
    rec.insert("s3".to_string(), serde_json::Value::Object(s3));
    let mut top = serde_json::Map::new();
    top.insert("Records".to_string(), serde_json::Value::Array(vec![serde_json::Value::Object(rec)]));
    serde_json::Value::Object(top).to_string()
}

#[test]
fn s3_payload_matches_json_writer() {
    assert_eq!(
        awsem::events::build_s3_payload("b", "out/_SUCCESS"),
        "{\"Records\":[{\"eventName\":\"ObjectCreated:Put\",\"eventSource\":\"aws:s3\",\"s3\":{\"bucket\":{\"name\":\"b\"},\"object\":{\"key\":\"out/_SUCCESS\"}}}]}"
    );
    for (b, k) in [("b", "k"), ("we\"ird\\", "a\nb\tc\r\u{8}\u{c}\u{1}\u{1f}"), ("é ü", "日本/\u{7f}")] {
        assert_eq!(awsem::events::build_s3_payload(b, k), serde_payload(b, k));
    }
}

#[test]
fn arn_with_five_colons_parses() {
    let s = "arn:p:s:r:a:res:with:colons";
    let a = awsem::arn::Arn::parse(s).unwrap();
    assert_eq!(
        (a.partition.as_str(), a.service.as_str(), a.region.as_str(), a.account.as_str(), a.resource.as_str()),
        ("p", "s", "r", "a", "res:with:colons")
    );
    assert_eq!(a.to_string(), s);
    assert!(awsem::arn::Arn::parse("arn:::::").is_ok());
    assert_eq!(awsem::arn::Arn::parse("arn:::::").unwrap().to_string(), "arn:::::");
}

#[test]
fn configured_targets_in_line_order() {
    let xml = "<NotificationConfiguration>\n  <QueueArn>arn:q</QueueArn>\n  <TopicArn>arn:t</TopicArn>\n  <CloudFunctionArn>arn:f</CloudFunctionArn>\n</NotificationConfiguration>";
    assert_eq!(
        awsem::notification::parse_event_targets(xml),
        vec![
            ("arn:q".to_string(), "SQS".to_string()),
            ("arn:t".to_string(), "SNS".to_string()),
            ("arn:f".to_string(), "Lambda".to_string()),
        ]
    );
}

#[test]
fn issued_tokens_verify_with_their_claims() {
    let now = 1_700_000_000usize;
    let (a, i, r) = awsem::token::create_tokens("sub-1", "alice", "pool", "s3cret", now).unwrap();
    for (t, kind, life) in [(&a, "access", 3600usize), (&i, "id", 86400), (&r, "refresh", 2592000)] {
        let c = awsem::token::verify_token(t, "s3cret", now as u64).unwrap();
        assert_eq!(c.sub, "sub-1");
        assert_eq!(c.username, "alice");
        assert_eq!(c.pool_id, "pool");
        assert_eq!(c.token_use, kind);
        assert_eq!(c.iss, "https://cognito-idp.us-east-1.amazonaws.com/pool");
        assert_eq!((c.auth_time, c.iat, c.exp), (now, now, now + life));
        assert!(awsem::token::verify_token(t, "s3cret", (now + life + 60) as u64).is_ok());
        assert!(awsem::token::verify_token(t, "s3cret", (now + life + 61) as u64).is_err());
    }
}

#[test]
fn refused_tokens() {
    let (a, _, _) = awsem::token::create_tokens("s", "u", "p", "k", 1000).unwrap();
    assert!(awsem::token::verify_token(&a, "other", 1000).is_err());
    let mut tampered = a.clone();
    tampered.push('x');
    assert!(awsem::token::verify_token(&tampered, "k", 1000).is_err());
    assert!(awsem::token::verify_token("not.a.token", "k", 1000).is_err());
    assert!(awsem::token::verify_token("", "k", 1000).is_err());
}
