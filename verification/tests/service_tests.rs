use awsem::agent::{escape_logs, parse_endpoint, parse_u16_exec, post_request_text, report_request};
use awsem::cognito::{
    admin_pool_arn, admin_pool_id, check_password, hash_password, login_outcome, new_user, session_claims, sign_in,
    temporary_password, token_claims, CognitoGuard, CognitoUser, ACCESS_TOKEN_LIFETIME, ID_TOKEN_LIFETIME,
    REFRESH_TOKEN_LIFETIME,
};
use awsem::emr::{
    job_run_label, job_state_for_phase, jfid, listed_step_id, report_outcome, run_job_name, sid, state_after_submit,
    step_driver, step_job_name, step_pattern, success_marker_url, to_rfc3339, EmrClassicGuard, JobRunState,
};
use awsem::error::AwsemError;
use awsem::events::{emr_success_event, targets_lambda, BusEvent};
use awsem::lambda::{
    code_zip, failure_result, finished_result, function_image, i32_setting, invocation_deadline_secs,
    invocation_job_name, is_finished_phase, job_pod_label, mock_result, not_found_result, plan_function,
    response_payload, FunctionInput, InvocationResult,
};
use awsem::logs::{log_line_count, parse_line, select_entries};
use awsem::notification::{is_success_marker, parse_event_targets, success_marker_location, success_marker_target};
use awsem::s3::{any_running, parse_bucket_names, parse_object_listing, RustFsConfig};
use awsem::secrets::{make_arn, require_name, require_not_deleted, resolve_secret, to_date, Secret, SecretsGuard};
use awsem::spark::{build_args, filter_submit_params, spark_image, spark_submit_args, SparkSubmitDriver};
use awsem::targets::{
    cognito_operation, emr_classic_operation, forward_method, is_async_invocation, is_cognito_target,
    is_emr_classic_target, is_secrets_target, secrets_operation, CognitoOp, EmrClassicOp, HttpMethod, SecretsOp,
};

fn strings(v: &[&str]) -> Vec<String> {
    v.iter().map(|s| s.to_string()).collect()
}

fn status(r: InvocationResult) -> (u16, String) {
    match r {
        InvocationResult::Status(c, b) => (c, b),
        InvocationResult::Output(o) => panic!("unexpected output {o}"),
    }
}

fn secret(name: &str, deleted: bool) -> Secret {
    Secret {
        id: "id-1".into(),
        name: name.into(),
        arn: make_arn(name),
        description: None,
        kms_key_id: None,
        tags_json: "[]".into(),
        created_at: "2024-01-01T00:00:00Z".into(),
        last_changed: "2024-01-01T00:00:00Z".into(),
        deleted_at: if deleted { Some("2024-02-01T00:00:00Z".into()) } else { None },
    }
}

// ---- spark-submit ----

const FIXED_TAIL: [&str; 28] = [
    "--master",
    "k8s://https://kubernetes.default.svc",
    "--deploy-mode",
    "cluster",
    "--conf",
    "spark.kubernetes.container.image=img",
    "--conf",
    "spark.kubernetes.namespace=ns",
    "--conf",
    "spark.kubernetes.authenticate.driver.serviceAccountName=spark",
    "--conf",
    "spark.kubernetes.authenticate.executor.serviceAccountName=spark",
    "--conf",
    "spark.kubernetes.driver.label.awsem-job-run-id=job1",
    "--conf",
    "spark.kubernetes.executor.label.awsem-job-run-id=job1",
    "--conf",
    "spark.hadoop.fs.s3a.endpoint=http://rustfs-svc:9000",
    "--conf",
    "spark.hadoop.fs.s3a.access.key=ak",
    "--conf",
    "spark.hadoop.fs.s3a.secret.key=sk",
    "--conf",
    "spark.hadoop.fs.s3a.path.style.access=true",
    "--conf",
    "spark.kubernetes.executor.deleteOnTermination=true",
    "--conf",
    "spark.kubernetes.driver.deleteOnTermination=false",
];

fn fixed() -> Vec<String> {
    strings(&FIXED_TAIL)
}

#[test]
fn filter_drops_master_and_deploy_mode() {
    let parts = strings(&["--conf", "a=b", "--master", "local", "--deploy-mode=client", "--num-executors", "2", "--deploy-mode"]);
    assert_eq!(filter_submit_params(&parts), strings(&["--conf", "a=b", "--num-executors", "2"]));
    let parts = strings(&["--master=yarn", "x"]);
    assert_eq!(filter_submit_params(&parts), strings(&["x"]));
}

#[test]
fn build_args_without_driver() {
    assert_eq!(build_args(&None, "img", "ns", "job1", "ak", "sk"), fixed());
}

#[test]
fn build_args_splits_user_parameters_as_a_shell_does() {
    let driver = SparkSubmitDriver {
        entry_point: Some("s3://b/app.py".into()),
        entry_point_arguments: vec![Some("in".into()), None, Some("out dir".into())],
        spark_submit_parameters: Some("--conf 'spark.app.name=my app' --master local[2] --driver-memory 1g".into()),
    };
    let mut expected = strings(&["--conf", "spark.app.name=my app", "--driver-memory", "1g"]);
    expected.extend(fixed());
    expected.extend(strings(&["s3://b/app.py", "in", "out dir"]));
    let args = build_args(&Some(driver), "img", "ns", "job1", "ak", "sk");
    assert_eq!(args, expected);
    let k = 4;
    assert_eq!(args[k], "--master");
    assert_eq!(args[k + 1], "k8s://https://kubernetes.default.svc");
    assert_eq!(args[k + 2], "--deploy-mode");
    assert_eq!(args[k + 3], "cluster");
    assert!(args[..k].iter().all(|a| a != "--master" && a != "--deploy-mode"));
}

#[test]
fn build_args_ignores_unbalanced_quotes() {
    let driver = SparkSubmitDriver {
        entry_point: None,
        entry_point_arguments: vec![],
        spark_submit_parameters: Some("--conf 'unterminated".into()),
    };
    assert_eq!(build_args(&Some(driver), "img", "ns", "job1", "ak", "sk"), fixed());
}

#[test]
fn spark_submit_args_with_given_words() {
    let words = strings(&["--master", "local", "--verbose"]);
    let mut expected = strings(&["--verbose"]);
    expected.extend(fixed());
    assert_eq!(spark_submit_args(&words, &None, "img", "ns", "job1", "ak", "sk"), expected);
}

#[test]
fn spark_image_choice() {
    assert_eq!(spark_image("emr-6.15.0", None), "apache/spark:latest");
    assert_eq!(spark_image("emr-6.15.0", Some("my/spark:1")), "my/spark:1");
    assert_eq!(spark_image("6.15.0-latest", Some("my/spark:1")), "public.ecr.aws/emr-on-eks/spark/6.15.0-latest");
}

// ---- notifications ----

#[test]
fn event_targets_from_configuration() {
    let config = "<NotificationConfiguration>\n  <QueueConfiguration>\n    <QueueArn>arn:aws:sqs:us-east-1:0:q</QueueArn>\n  </QueueConfiguration>\n  <TopicArn>arn:aws:sns:us-east-1:0:t</TopicArn>\n\t<CloudFunctionArn>arn:aws:lambda:us-east-1:0:function:f</CloudFunctionArn> trailing\n<QueueArn>no-close\n</NotificationConfiguration>";
    let t = parse_event_targets(config);
    assert_eq!(
        t,
        vec![
            ("arn:aws:sqs:us-east-1:0:q".to_string(), "SQS".to_string()),
            ("arn:aws:sns:us-east-1:0:t".to_string(), "SNS".to_string()),
            ("arn:aws:lambda:us-east-1:0:function:f".to_string(), "Lambda".to_string()),
        ]
    );
    assert!(parse_event_targets("").is_empty());
}

#[test]
fn success_markers() {
    assert_eq!(
        success_marker_target("/bucket/out/part/_SUCCESS"),
        Some(("bucket".to_string(), "out/part/_SUCCESS".to_string()))
    );
    assert_eq!(success_marker_target("//b/_SUCCESS"), Some(("b".to_string(), "_SUCCESS".to_string())));
    assert_eq!(success_marker_target("/bucket/out/data.csv"), None);
    assert_eq!(success_marker_target("/_SUCCESS"), None);
    assert!(is_success_marker("a/b/_SUCCESS"));
    assert!(!is_success_marker("a/b/_SUCCESS.txt"));
    assert_eq!(
        success_marker_location("http://rustfs:9000", "b", "out/"),
        ("out/_SUCCESS".to_string(), "http://rustfs:9000/b/out/_SUCCESS".to_string())
    );
}

// ---- S3 store ----

#[test]
fn bucket_listing() {
    let xml = "<ListAllMyBucketsResult><Buckets><Bucket><Name>alpha</Name><CreationDate>x</CreationDate></Bucket><Bucket><Name>beta</Name></Bucket><Bucket></Bucket></Buckets></ListAllMyBucketsResult>";
    assert_eq!(parse_bucket_names(xml), strings(&["alpha", "beta"]));
    assert!(parse_bucket_names("<ListAllMyBucketsResult/>").is_empty());
}

#[test]
fn object_listing() {
    let xml = "<ListBucketResult><Contents><Key>a.txt</Key><Size>12</Size></Contents><Contents><Key>b/c</Key><Size>oops</Size></Contents><Contents><Key>nosize</Key></Contents></ListBucketResult>";
    assert_eq!(parse_object_listing(xml), vec![("a.txt".to_string(), 12), ("b/c".to_string(), 0)]);
}

#[test]
fn store_running_and_config() {
    assert!(any_running(&vec![Some("Pending".into()), Some("Running".into())]));
    assert!(!any_running(&vec![None, Some("Pending".into())]));
    assert!(!any_running(&vec![]));
    let c = RustFsConfig::new("ns", "img", "1Gi", "ak", "sk");
    assert_eq!((c.namespace.as_str(), c.image.as_str(), c.pvc_size.as_str()), ("ns", "img", "1Gi"));
    assert_eq!((c.access_key.as_str(), c.secret_key.as_str()), ("ak", "sk"));
}

// ---- log viewer ----

#[test]
fn log_line_parsing() {
    let e = parse_line("  [2024-01-01T00:00:00Z INFO awsem::s3 bucket created  now ").unwrap();
    assert_eq!(e.timestamp, "2024-01-01T00:00:00Z");
    assert_eq!(e.level, "INFO");
    assert_eq!(e.target, "awsem::s3");
    assert_eq!(e.message, "bucket created  now");
    assert!(parse_line("   ").is_none());
    assert!(parse_line("[ts INFO target").is_none());
}

#[test]
fn log_selection_filters_and_keeps_last() {
    let content = "[1 INFO s3 one\n[2 WARN emr two\nbad\n[3 INFO s3 three\n[4 INFO lambda s3 four\n";
    let all = select_entries(content, "", 50);
    assert_eq!(all.len(), 4);
    let s3 = select_entries(content, "s3", 2);
    assert_eq!(s3.iter().map(|e| e.timestamp.as_str()).collect::<Vec<_>>(), vec!["3", "4"]);
    assert!(select_entries(content, "", 0).is_empty());
    assert_eq!(log_line_count(Some("10")), 10);
    assert_eq!(log_line_count(Some("+7")), 7);
    assert_eq!(log_line_count(Some("x")), 50);
    assert_eq!(log_line_count(None), 50);
}

// ---- spark agent ----

#[test]
fn agent_report() {
    assert_eq!(escape_logs("a\"b\\c\nd\re\tf"), "a\\\"b\\\\c\\nd\\re\\tf");
    let (path, body) = report_request("http://h", "jr1", "line\n", 0).unwrap();
    assert_eq!(path, "/admin/api/emr/jobs/jr1/complete");
    assert_eq!(body, "{\"logs\":\"line\\n\",\"exit_code\":0}");
    let (path, body) = report_request("http://h", "jr1", "", -3).unwrap();
    assert_eq!(path, "/admin/api/emr/jobs/jr1/fail");
    assert_eq!(body, "{\"logs\":\"\",\"exit_code\":-3}");
    assert!(report_request("", "jr1", "", 0).is_none());
    assert!(report_request("http://h", "", "", 0).is_none());
}

#[test]
fn agent_endpoint_and_request() {
    let e = parse_endpoint("http://host.docker.internal:4566/base");
    assert_eq!((e.host.as_str(), e.port, e.base_path.as_str()), ("host.docker.internal", 4566, "/base"));
    let e = parse_endpoint("example.com");
    assert_eq!((e.host.as_str(), e.port, e.base_path.as_str()), ("example.com", 80, ""));
    let e = parse_endpoint("http://h:notaport");
    assert_eq!(e.port, 80);
    assert_eq!(parse_u16_exec("65535"), Some(65535));
    assert_eq!(parse_u16_exec("65536"), None);
    let (full, req) = post_request_text(&parse_endpoint("http://h:1/b"), "/p", "{}");
    assert_eq!(full, "/b/p");
    assert_eq!(req, "POST /b/p HTTP/1.1\r\nHost: h\r\nContent-Type: application/json\r\nContent-Length: 2\r\nConnection: close\r\n\r\n{}");
}

// ---- targets ----

#[test]
fn operation_dispatch() {
    assert_eq!(cognito_operation("AWSCognitoIdentityProviderService.SignUp"), CognitoOp::SignUp);
    assert_eq!(cognito_operation("AWSCognitoIdentityProviderService.GetUser"), CognitoOp::GetUser);
    assert_eq!(cognito_operation("AWSCognitoIdentityProviderService.Nope"), CognitoOp::Unknown);
    assert_eq!(secrets_operation("secretsmanager.GetSecretValue"), SecretsOp::GetSecretValue);
    assert_eq!(secrets_operation("secretsmanager.RestoreSecret"), SecretsOp::RestoreSecret);
    assert_eq!(secrets_operation("secretsmanager.TagResource"), SecretsOp::Unknown);
    assert_eq!(emr_classic_operation("ElasticMapReduce.RunJobFlow"), EmrClassicOp::RunJobFlow);
    assert_eq!(emr_classic_operation("ElasticMapReduce.SetVisibleToAllUsers"), EmrClassicOp::SetVisibleToAllUsers);
    assert_eq!(emr_classic_operation("ElasticMapReduce.Other"), EmrClassicOp::Unknown);
}

#[test]
fn target_guards() {
    assert!(is_cognito_target(Some("AWSCognitoIdentityProviderService.SignUp")));
    assert!(!is_cognito_target(None));
    assert!(is_secrets_target(Some("secretsmanager.X")));
    assert!(!is_secrets_target(Some("ElasticMapReduce.X")));
    assert!(is_emr_classic_target(Some("ElasticMapReduce.X")));
    assert!(CognitoGuard.check(Some("AWSCognitoIdentityProviderService")));
    assert!(SecretsGuard.check(Some("secretsmanager.ListSecrets")));
    assert!(!SecretsGuard.check(None));
    assert!(EmrClassicGuard.check(Some("ElasticMapReduce.ListSteps")));
    assert!(!EmrClassicGuard.check(Some("secretsmanager")));
    assert!(is_async_invocation(Some("Event")));
    assert!(!is_async_invocation(Some("RequestResponse")));
    assert!(!is_async_invocation(None));
}

#[test]
fn forwarded_methods() {
    assert_eq!(forward_method("GET"), HttpMethod::Get);
    assert_eq!(forward_method("PUT"), HttpMethod::Put);
    assert_eq!(forward_method("POST"), HttpMethod::Post);
    assert_eq!(forward_method("DELETE"), HttpMethod::Delete);
    assert_eq!(forward_method("HEAD"), HttpMethod::Head);
    assert_eq!(forward_method("OPTIONS"), HttpMethod::Options);
    assert_eq!(forward_method("PATCH"), HttpMethod::Patch);
    assert_eq!(forward_method("TRACE"), HttpMethod::Get);
}

// ---- events ----

#[test]
fn bus_events() {
    match emr_success_event("vc1", "jr1") {
        BusEvent::S3Notification { bucket, key, target_arn, target_type } => {
            assert_eq!(bucket, "emr-vc1");
            assert_eq!(key, "jobs/jr1/_SUCCESS");
            assert_eq!(target_arn, "arn:aws:emr-containers:us-east-1:000000000000:/virtualclusters/vc1/jobruns/jr1");
            assert_eq!(target_type, "emr");
        }
        other => panic!("unexpected {other:?}"),
    }
    assert!(targets_lambda("Lambda"));
    assert!(!targets_lambda("SQS"));
}

// ---- EMR ----

#[test]
fn job_run_states() {
    assert_eq!(job_state_for_phase("Succeeded"), Some(JobRunState::Completed));
    assert_eq!(job_state_for_phase("Failed"), Some(JobRunState::Failed));
    assert_eq!(job_state_for_phase("Unknown"), Some(JobRunState::Failed));
    assert_eq!(job_state_for_phase("Running"), None);
    assert_eq!(state_after_submit(true), JobRunState::Failed);
    assert_eq!(state_after_submit(false), JobRunState::Running);
    assert_eq!(report_outcome(true, None), (JobRunState::Completed, 0));
    assert_eq!(report_outcome(false, None), (JobRunState::Failed, 1));
    assert_eq!(report_outcome(false, Some(137)), (JobRunState::Failed, 137));
    assert_eq!(JobRunState::Submitted.name(), "SUBMITTED");
    assert_eq!(JobRunState::Running.name(), "RUNNING");
    assert_eq!(JobRunState::Completed.name(), "COMPLETED");
    assert_eq!(JobRunState::Failed.name(), "FAILED");
    assert_eq!(JobRunState::Cancelled.name(), "CANCELLED");
}

#[test]
fn step_ids() {
    assert_eq!(sid("0123456789abcdef"), "s-01234567");
    assert_eq!(sid("01234567"), "s-01234567");
    assert_eq!(step_pattern("s-01234567"), "01234567%");
    assert_eq!(step_pattern("s-"), "");
    assert_eq!(step_pattern(""), "");
    assert_eq!(listed_step_id("s-custom", "0123456789"), "s-custom");
    assert_eq!(listed_step_id("", "abcdefgh-1234"), "s-abcdefgh");
}

#[test]
fn emr_names() {
    let j = jfid();
    assert_eq!(j.len(), 10);
    assert!(j.starts_with("j-"));
    assert!(j[2..].chars().all(|c| c.is_ascii_digit() || ('a'..='f').contains(&c)));
    assert_eq!(step_job_name("s-1"), "emr-step-s-1");
    assert_eq!(run_job_name("jr"), "emr-job-jr");
    assert_eq!(job_run_label("jr"), "awsem-job-run-id=jr");
    assert_eq!(
        success_marker_url("http://rustfs:9000", "vc", "jr"),
        Some("http://rustfs:9000/emr-vc/jobs/jr/_SUCCESS".to_string())
    );
    assert_eq!(success_marker_url("", "vc", "jr"), None);
}

#[test]
fn step_drivers() {
    let d = step_driver(None, strings(&["10"]));
    assert_eq!(d.entry_point.as_deref(), Some("local:///opt/spark/examples/src/main/python/pi.py"));
    assert_eq!(d.entry_point_arguments, vec![Some("10".to_string())]);
    assert_eq!(d.spark_submit_parameters.as_deref(), Some(""));
    let d = step_driver(Some("s3://b/job.jar".into()), vec![]);
    assert_eq!(d.entry_point.as_deref(), Some("s3://b/job.jar"));
    assert!(d.entry_point_arguments.is_empty());
}

#[test]
fn sqlite_times_in_rfc3339() {
    assert_eq!(to_rfc3339("2024-03-05 10:20:30"), "2024-03-05T10:20:30+00:00");
    assert_eq!(to_rfc3339("not a time"), "not a time");
}

// ---- Lambda ----

fn input(name: Option<&str>) -> FunctionInput {
    FunctionInput {
        function_name: name.map(|n| n.to_string()),
        runtime: None,
        handler: None,
        role: None,
        image: None,
        timeout: None,
        memory_size: None,
        zip_file: None,
    }
}

#[test]
fn plan_function_defaults() {
    let f = plan_function(input(Some("fn-1")), &Some("runtime:img".into())).ok().unwrap();
    assert_eq!(f.name, "fn-1");
    assert_eq!(f.arn, "arn:aws:lambda:us-east-1:000000000000:function:fn-1");
    assert_eq!(f.runtime, "provided.al2023");
    assert_eq!(f.handler, "");
    assert_eq!(f.role, "");
    assert_eq!(f.timeout, 3);
    assert_eq!(f.memory_size, 128);
    assert_eq!(f.image.as_deref(), Some("runtime:img"));
    assert!(f.code_zip.is_none());
}

#[test]
fn plan_function_given_values() {
    let mut i = input(Some("f"));
    i.runtime = Some("python3.12".into());
    i.handler = Some("app.main".into());
    i.image = Some("own:img".into());
    i.timeout = Some(30);
    i.memory_size = Some(4294967424);
    i.zip_file = Some("UEsDBA==".into());
    let f = plan_function(i, &None).ok().unwrap();
    assert_eq!(f.runtime, "python3.12");
    assert_eq!(f.handler, "app.main");
    assert_eq!(f.image.as_deref(), Some("own:img"));
    assert_eq!(f.timeout, 30);
    assert_eq!(f.memory_size, 128);
    assert_eq!(f.code_zip, Some(vec![0x50, 0x4b, 0x03, 0x04]));
}

#[test]
fn plan_function_refuses_bad_names() {
    match plan_function(input(None), &None) {
        Err(AwsemError::InvalidRequest(m)) => assert_eq!(m, "Invalid FunctionName: name must not be empty"),
        _ => panic!("absent name accepted"),
    }
    match plan_function(input(Some("a b")), &None) {
        Err(AwsemError::InvalidRequest(m)) => {
            assert_eq!(m, "Invalid FunctionName: name can only contain letters, numbers, hyphens, and underscores")
        }
        _ => panic!("bad name accepted"),
    }
}

#[test]
fn lambda_helpers() {
    assert_eq!(i32_setting(None, 3), 3);
    assert_eq!(i32_setting(Some(-1), 3), -1);
    assert_eq!(function_image(None, &None), None);
    assert_eq!(function_image(None, &Some("d".into())), Some("d".to_string()));
    assert_eq!(invocation_job_name("f", "abc"), "lambda-f-abc");
    assert_eq!(job_pod_label("lambda-f-abc"), "job-name=lambda-f-abc");
    assert_eq!(invocation_deadline_secs(1), 13);
    assert_eq!(invocation_deadline_secs(60), 70);
    assert!(is_finished_phase("Succeeded"));
    assert!(is_finished_phase("Failed"));
    assert!(!is_finished_phase("Running"));
}

#[test]
fn invocation_results() {
    assert_eq!(status(mock_result("f")), (200, "Hello from awsem Lambda (f)!".to_string()));
    assert_eq!(status(not_found_result("f")), (404, "Function f not found".to_string()));
    assert_eq!(status(failure_result("Job create failed: ", "boom")), (500, "Job create failed: boom".to_string()));
    match finished_result(true, Ok("  {\"ok\":1}\n".into())) {
        InvocationResult::Output(o) => assert_eq!(o, "{\"ok\":1}"),
        _ => panic!("expected output"),
    }
    assert_eq!(status(finished_result(false, Ok("trace".into()))), (500, "trace".to_string()));
    assert_eq!(status(finished_result(true, Err("gone".into()))), (500, "Log read error: gone".to_string()));
}

#[test]
fn base64_code_and_payload() {
    assert_eq!(code_zip(Some("aGVsbG8=")), Some(b"hello".to_vec()));
    assert_eq!(code_zip(Some("not base64!")), None);
    assert_eq!(code_zip(None), None);
    assert_eq!(response_payload("hello"), "aGVsbG8=");
    assert_eq!(response_payload(""), "");
}

// ---- Secrets Manager ----

#[test]
fn secret_checks() {
    assert_eq!(make_arn("db"), "arn:aws:secretsmanager:us-east-1:000000000000:secret:db");
    match require_name("") {
        Err(AwsemError::InvalidRequest(m)) => assert_eq!(m, "Name is required"),
        _ => panic!("empty name accepted"),
    }
    assert!(require_name("x").is_ok());
    match require_not_deleted(&secret("s", true)) {
        Err(AwsemError::NotFound(m)) => assert_eq!(m, "Secret is deleted"),
        _ => panic!("deleted secret readable"),
    }
    assert!(require_not_deleted(&secret("s", false)).is_ok());
}

#[test]
fn secret_lookup_by_name_then_arn() {
    let s = resolve_secret(Ok(secret("a", false)), Err("x".into())).ok().unwrap();
    assert_eq!(s.name, "a");
    let s = resolve_secret(Err("no name".into()), Ok(secret("b", false))).ok().unwrap();
    assert_eq!(s.name, "b");
    match resolve_secret(Err("no name".into()), Err("no arn".into())) {
        Err(AwsemError::NotFound(m)) => assert_eq!(m, "no arn"),
        _ => panic!("found nothing yet succeeded"),
    }
}

#[test]
fn secret_dates() {
    assert_eq!(to_date("1970-01-01T00:00:01Z"), 1000);
    assert_eq!(to_date("2024-01-01T00:00:00.5+00:00"), 1704067200500);
    assert_eq!(to_date("yesterday"), 0);
}

// ---- Cognito ----

#[test]
fn sign_up_then_sign_in() {
    let u = new_user("pool", "alice", "S3cret!", "UNCONFIRMED").ok().unwrap();
    assert_eq!(u.pool_id, "pool");
    assert_eq!(u.username, "alice");
    assert_eq!(u.status, "UNCONFIRMED");
    assert_eq!(u.attributes_json, "{}");
    assert!(u.email.is_none());
    assert_eq!(u.id.len(), 36);
    assert!(sign_in(&u, "S3cret!").is_ok());
    match sign_in(&u, "wrong") {
        Err(AwsemError::InvalidRequest(m)) => assert_eq!(m, "Incorrect username or password"),
        _ => panic!("wrong password accepted"),
    }
}

#[test]
fn password_hashing() {
    let h = hash_password("pw").unwrap();
    assert!(h.starts_with("$argon2"));
    assert_eq!(check_password("pw", &h), Ok(true));
    assert_eq!(check_password("other", &h), Ok(false));
    assert!(check_password("pw", "not a phc string").is_err());
    let bad = CognitoUser {
        id: "1".into(),
        pool_id: "p".into(),
        username: "u".into(),
        password_hash: "garbage".into(),
        email: None,
        attributes_json: "{}".into(),
        status: "CONFIRMED".into(),
    };
    assert!(matches!(sign_in(&bad, "pw"), Err(AwsemError::Internal(_))));
}

#[test]
fn login_outcomes() {
    assert!(login_outcome(Ok(true)).is_ok());
    assert!(matches!(login_outcome(Ok(false)), Err(AwsemError::InvalidRequest(_))));
    match login_outcome(Err("bad hash".into())) {
        Err(AwsemError::Internal(m)) => assert_eq!(m, "bad hash"),
        _ => panic!("unreadable hash accepted"),
    }
}

#[test]
fn token_claims_lifetimes() {
    let c = token_claims("sub", "alice", "pool", "access", 1000, ACCESS_TOKEN_LIFETIME);
    assert_eq!(c.iss, "https://cognito-idp.us-east-1.amazonaws.com/pool");
    assert_eq!((c.iat, c.auth_time, c.exp), (1000, 1000, 4600));
    let (a, i, r) = session_claims("sub", "alice", "pool", 0);
    assert_eq!((a.token_use.as_str(), a.exp), ("access", 3600));
    assert_eq!((i.token_use.as_str(), i.exp), ("id", 86400));
    assert_eq!((r.token_use.as_str(), r.exp), ("refresh", 2592000));
    assert_eq!((ID_TOKEN_LIFETIME, REFRESH_TOKEN_LIFETIME), (86400, 2592000));
}

#[test]
fn cognito_admin_defaults() {
    assert_eq!(admin_pool_id(None), "us-east-1_default");
    assert_eq!(admin_pool_id(Some("p")), "p");
    assert_eq!(temporary_password(None), "Pass1234!");
    assert_eq!(temporary_password(Some("x")), "x");
    assert_eq!(admin_pool_arn("p"), "arn:aws:cognito-idp:us-east-1:000000000000:userpool/p");
}
