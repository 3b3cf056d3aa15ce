use awsem::arn::{self, Arn};
use awsem::auth::{extract_auth_info, AuthInfo};
use awsem::aws::AwsConfig;
use awsem::config::{default_config_path, default_data_dir, default_db_path, default_jwt_secret, default_log_dir, AppConfig, ConfigFile};
use awsem::error::AwsemError;
use awsem::naming::{data_dir_fn, removal_dir, validate};

fn blank_cli() -> AppConfig {
    AppConfig {
        port: None,
        config_file: None,
        db_path: None,
        kubeconfig: None,
        k8s_namespace: None,
        rustfs_image: None,
        rustfs_pvc_size: None,
        s3_endpoint: None,
        no_s3: None,
        no_emr: None,
        no_lambda: None,
        lambda_runtime_image: None,
        emr_spark_image: None,
        data_dir: None,
        log_dir: None,
        log_level: None,
        jwt_secret: None,
        host_ip: None,
        region: None,
        account_id: None,
        aws_access_key_id: None,
        aws_secret_access_key: None,
        default_pool_id: None,
        spark_cpu: None,
        spark_memory: None,
        lambda_cpu: None,
        lambda_memory: None,
        emr_poll_interval: None,
        rustfs_access_key: None,
        rustfs_secret_key: None,
    }
}

fn is_uuid(s: &str) -> bool {
    let b = s.as_bytes();
    b.len() == 36
        && b.iter().enumerate().all(|(i, c)| {
            if i == 8 || i == 13 || i == 18 || i == 23 {
                *c == b'-'
            } else {
                c.is_ascii_digit() || (b'a'..=b'f').contains(c)
            }
        })
}

// ---- ARNs ----

#[test]
fn arn_parse_reads_five_fields() {
    let a = Arn::parse("arn:aws:lambda:us-east-1:000000000000:function:my-fn").unwrap();
    assert_eq!(a.partition, "aws");
    assert_eq!(a.service, "lambda");
    assert_eq!(a.region, "us-east-1");
    assert_eq!(a.account, "000000000000");
    assert_eq!(a.resource, "function:my-fn");
}

#[test]
fn arn_parse_keeps_colons_in_resource() {
    let a = Arn::parse("arn:aws:secretsmanager:us-east-1:123:secret:a:b").unwrap();
    assert_eq!(a.resource, "secret:a:b");
}

#[test]
fn arn_parse_rejects_short_text() {
    match Arn::parse("arn:aws:s3") {
        Err(m) => assert_eq!(m, "Invalid ARN format"),
        Ok(_) => panic!("short text parsed"),
    }
}

#[test]
fn arn_parse_rejects_wrong_prefix() {
    assert!(Arn::parse("urn:aws:s3:::b:c").is_err());
    assert!(Arn::parse("").is_err());
}

#[test]
fn arn_round_trip_print_then_parse() {
    let a = arn::emr_job_run("111", "vc1", "jr1");
    let text = a.to_string();
    assert_eq!(text, "arn:aws:emr-containers:us-east-1:111:/virtualclusters/vc1/jobruns/jr1");
    let b = Arn::parse(&text).unwrap();
    assert_eq!(b.partition, a.partition);
    assert_eq!(b.service, a.service);
    assert_eq!(b.region, a.region);
    assert_eq!(b.account, a.account);
    assert_eq!(b.resource, a.resource);
}

#[test]
fn arn_round_trip_parse_then_print() {
    let text = "arn:aws:cognito-idp:eu-west-1:42:userpool/eu-west-1_x";
    assert_eq!(Arn::parse(text).unwrap().to_string(), text);
}

#[test]
fn arn_builders_print_expected_text() {
    assert_eq!(arn::s3_bucket("1", "b").to_string(), "arn:aws:s3:us-east-1:1:bucket/b");
    assert_eq!(arn::cognito_pool("1", "eu-west-1", "p").to_string(), "arn:aws:cognito-idp:eu-west-1:1:userpool/p");
    assert_eq!(arn::secret("1", "s").to_string(), "arn:aws:secretsmanager:us-east-1:1:secret:s");
    assert_eq!(arn::emr_virtual_cluster("1", "v").to_string(), "arn:aws:emr-containers:us-east-1:1:/virtualclusters/v");
    assert_eq!(arn::lambda_fn("1", "f").to_string(), "arn:aws:lambda:us-east-1:1:function:f");
}

// ---- account settings ----

#[test]
fn aws_config_defaults_pool_to_region() {
    let c = AwsConfig::new("eu-west-1", "123", "ak", "sk", "");
    assert_eq!(c.default_pool_id, "eu-west-1_default");
    assert_eq!(c.jwt_issuer_url, "https://cognito-idp.eu-west-1.amazonaws.com/eu-west-1_default");
    let d = AwsConfig::new("eu-west-1", "123", "ak", "sk", "mypool");
    assert_eq!(d.default_pool_id, "mypool");
    assert_eq!(d.jwt_issuer_url, "https://cognito-idp.eu-west-1.amazonaws.com/mypool");
}

#[test]
fn aws_config_prints_arns() {
    let c = AwsConfig::new("us-west-2", "123456789012", "ak", "sk", "");
    assert_eq!(c.partition(), "aws");
    assert_eq!(c.lambda_arn("f"), "arn:aws:lambda:us-west-2:123456789012:function:f");
    assert_eq!(c.cognito_pool_arn("p"), "arn:aws:cognito-idp:us-west-2:123456789012:userpool/p");
    assert_eq!(c.secrets_arn("s"), "arn:aws:secretsmanager:us-west-2:123456789012:secret:s");
    assert_eq!(c.emr_vc_arn("v"), "arn:aws:emr-containers:us-west-2:123456789012:/virtualclusters/v");
    assert_eq!(c.emr_job_arn("v", "j"), "arn:aws:emr-containers:us-west-2:123456789012:/virtualclusters/v/jobruns/j");
    assert_eq!(c.emr_cluster_arn("j-1"), "arn:aws:emr:us-west-2:123456789012:cluster/j-1");
    assert_eq!(c.s3_bucket_arn("bkt"), "arn:aws:s3:::bkt");
    assert_eq!(c.iam_role_arn("r"), "arn:aws:iam::123456789012:role/r");
}

#[test]
fn printed_arns_read_back() {
    let c = AwsConfig::new("us-west-2", "123", "ak", "sk", "");
    let a = Arn::parse(&c.secrets_arn("db:pw")).unwrap();
    assert_eq!(a.partition, "aws");
    assert_eq!(a.service, "secretsmanager");
    assert_eq!(a.region, "us-west-2");
    assert_eq!(a.account, "123");
    assert_eq!(a.resource, "secret:db:pw");
}

// ---- settings ----

#[test]
fn default_paths_under_home() {
    assert_eq!(default_config_path(Some("/home/u")).unwrap(), "/home/u/.config/awsem/config.toml");
    assert_eq!(default_data_dir(Some("/home/u/")).unwrap(), "/home/u/.config/awsem/data");
    assert_eq!(default_log_dir(Some("/h")).unwrap(), "/h/.config/awsem/logs");
    assert!(default_config_path(None).is_none());
    assert!(default_data_dir(None).is_none());
    assert!(default_log_dir(None).is_none());
}

#[test]
fn default_db_path_with_and_without_home() {
    assert_eq!(default_db_path(4566, Some("/h")), "/h/.config/awsem/awsem.db");
    assert_eq!(default_db_path(4567, None), "awsem-4567.db");
    assert_eq!(default_db_path(0, None), "awsem-0.db");
}

#[test]
fn jwt_secret_is_a_uuid() {
    let a = default_jwt_secret();
    let b = default_jwt_secret();
    assert!(is_uuid(&a));
    assert!(is_uuid(&b));
    assert_ne!(a, b);
}

#[test]
fn resolved_defaults_of_empty_config() {
    let c = blank_cli();
    assert_eq!(c.resolved_port(), 4566);
    assert_eq!(c.resolved_db_path(), "./awsem.db");
    assert_eq!(c.resolved_log_dir(), "./logs");
    assert_eq!(c.resolved_k8s_namespace(), "awsem");
    assert_eq!(c.resolved_rustfs_image(), "rustfs/rustfs:latest");
    assert_eq!(c.resolved_rustfs_pvc_size(), "10Gi");
    assert!(!c.resolved_no_s3());
    assert!(!c.resolved_no_emr());
    assert!(!c.resolved_no_lambda());
    assert_eq!(c.resolved_emr_spark_image(), "spark-s3a:latest");
    assert_eq!(c.resolved_data_dir(), None);
    assert_eq!(c.resolved_log_level(), "info");
    assert_eq!(c.resolved_region(), "us-east-1");
    assert_eq!(c.resolved_account_id(), "000000000000");
    assert_eq!(c.resolved_aws_access_key_id(), "awsem");
    assert_eq!(c.resolved_aws_secret_access_key(), "awsem");
    assert_eq!(c.resolved_spark_cpu(), "500m");
    assert_eq!(c.resolved_spark_memory(), "512Mi");
    assert_eq!(c.resolved_lambda_cpu(), "250m");
    assert_eq!(c.resolved_lambda_memory(), "256Mi");
    assert_eq!(c.resolved_emr_poll_interval(), 15);
    assert_eq!(c.resolved_rustfs_access_key(), "awsem");
    assert_eq!(c.resolved_rustfs_secret_key(), "awsem");
    assert_eq!(c.resolved_default_pool_id(), "us-east-1_default");
    assert_eq!(c.resolved_jwt_secret(), "awsem-dev-secret");
    assert_eq!(c.resolved_host_ip(), "127.0.0.1");
    let mut d = blank_cli();
    d.host_ip = Some("10.0.0.5".into());
    d.jwt_secret = Some("k".into());
    assert_eq!(d.resolved_host_ip(), "10.0.0.5");
    assert_eq!(d.resolved_jwt_secret(), "k");
}

#[test]
fn resolved_aws_config_uses_settings() {
    let mut c = blank_cli();
    c.region = Some("ap-south-1".to_string());
    c.account_id = Some("999".to_string());
    let a = c.resolved_aws_config();
    assert_eq!(a.region, "ap-south-1");
    assert_eq!(a.account_id, "999");
    assert_eq!(a.access_key_id, "awsem");
    assert_eq!(a.default_pool_id, "ap-south-1_default");
    assert_eq!(a.jwt_issuer_url, "https://cognito-idp.ap-south-1.amazonaws.com/ap-south-1_default");
    c.default_pool_id = Some("pool-x".to_string());
    assert_eq!(c.resolved_aws_config().default_pool_id, "pool-x");
}

#[test]
fn merge_command_line_wins_over_file() {
    let mut cli = blank_cli();
    cli.region = Some("eu-central-1".to_string());
    cli.port = Some(5000);
    let mut file = ConfigFile::empty();
    file.region = Some("us-west-1".to_string());
    file.port = Some(6000);
    file.account_id = Some("777".to_string());
    file.jwt_secret = Some("s3cr3t".to_string());
    let m = AppConfig::merge(cli, file, Some("/home/u".to_string()));
    assert_eq!(m.region.as_deref(), Some("eu-central-1"));
    assert_eq!(m.port, Some(5000));
    assert_eq!(m.account_id.as_deref(), Some("777"));
    assert_eq!(m.jwt_secret.as_deref(), Some("s3cr3t"));
    assert_eq!(m.db_path.as_deref(), Some("/home/u/.config/awsem/awsem.db"));
    assert_eq!(m.data_dir.as_deref(), Some("/home/u/.config/awsem/data"));
    assert_eq!(m.log_dir.as_deref(), Some("/home/u/.config/awsem/logs"));
    assert_eq!(m.k8s_namespace.as_deref(), Some("awsem"));
    assert_eq!(m.emr_poll_interval, Some(15));
    assert_eq!(m.default_pool_id, None);
}

#[test]
fn merge_without_home_uses_port_db_name() {
    let mut cli = blank_cli();
    cli.port = Some(4600);
    let m = AppConfig::merge(cli, ConfigFile::empty(), None);
    assert_eq!(m.db_path.as_deref(), Some("awsem-4600.db"));
    assert_eq!(m.data_dir, None);
    assert_eq!(m.log_dir, None);
    assert!(is_uuid(m.jwt_secret.as_deref().unwrap()));
}

#[test]
fn merge_is_idempotent() {
    let mut cli = blank_cli();
    cli.log_level = Some("debug".to_string());
    let mut file = ConfigFile::default();
    file.no_s3 = Some(true);
    let m1 = AppConfig::merge(cli, file, Some("/h".to_string()));
    let m2 = AppConfig::merge(m1.clone(), ConfigFile::empty(), Some("/h".to_string()));
    assert_eq!(m2.log_level, m1.log_level);
    assert_eq!(m2.no_s3, Some(true));
    assert_eq!(m2.jwt_secret, m1.jwt_secret);
    assert_eq!(m2.db_path, m1.db_path);
    assert_eq!(m2.data_dir, m1.data_dir);
    assert_eq!(m2.port, m1.port);
    assert_eq!(m2.region, m1.region);
}

// ---- errors ----

#[test]
fn error_status_codes() {
    assert_eq!(AwsemError::NotImplemented("x".into()).status_code(), 501);
    assert_eq!(AwsemError::NotFound("x".into()).status_code(), 404);
    assert_eq!(AwsemError::InvalidRequest("x".into()).status_code(), 400);
    assert_eq!(AwsemError::Internal("x".into()).status_code(), 500);
    assert_eq!(AwsemError::Conflict("x".into()).status_code(), 409);
    assert_eq!(AwsemError::AlreadyExists("x".into()).status_code(), 409);
}

#[test]
fn error_messages() {
    assert_eq!(AwsemError::NotImplemented("op".into()).message(), "Not implemented: op");
    assert_eq!(AwsemError::NotFound("k".into()).message(), "Resource not found: k");
    assert_eq!(AwsemError::InvalidRequest("bad".into()).message(), "Invalid request: bad");
    assert_eq!(AwsemError::Internal("db".into()).message(), "Internal error: db");
    assert_eq!(AwsemError::Conflict("c".into()).message(), "c");
    assert_eq!(AwsemError::AlreadyExists("a".into()).message(), "a");
}

#[test]
fn error_responses_per_service() {
    let r = AwsemError::NotFound("u".into()).cognito_response();
    assert_eq!((r.status, r.error_type.as_str(), r.message.as_str()), (404, "ResourceNotFoundException", "Resource not found: u"));
    assert_eq!(AwsemError::AlreadyExists("u".into()).cognito_response().error_type, "UsernameExistsException");
    assert_eq!(AwsemError::Conflict("u".into()).cognito_response().error_type, "ConcurrentModificationException");
    assert_eq!(AwsemError::Internal("u".into()).cognito_response().error_type, "InternalErrorException");
    assert_eq!(AwsemError::InvalidRequest("u".into()).secrets_response().error_type, "InvalidParameterException");
    assert_eq!(AwsemError::AlreadyExists("u".into()).secrets_response().error_type, "ResourceExistsException");
    assert_eq!(AwsemError::NotImplemented("u".into()).secrets_response().error_type, "InternalServiceError");
    assert_eq!(AwsemError::NotImplemented("u".into()).emr_response().error_type, "UnknownOperationException");
    assert_eq!(AwsemError::Conflict("u".into()).emr_response().error_type, "ValidationException");
    assert_eq!(AwsemError::Internal("u".into()).emr_response().error_type, "InternalServerError");
    let g = AwsemError::Internal("boom".into()).to_response();
    assert_eq!((g.status, g.error_type.as_str(), g.message.as_str()), (500, "AwsemError", "Internal error: boom"));
}

#[test]
fn error_status_classes() {
    let all = vec![
        AwsemError::NotImplemented(String::new()),
        AwsemError::NotFound(String::new()),
        AwsemError::InvalidRequest(String::new()),
        AwsemError::Internal(String::new()),
        AwsemError::Conflict(String::new()),
        AwsemError::AlreadyExists(String::new()),
    ];
    for e in all {
        let s = e.status_code();
        assert!((400..600).contains(&s));
        let server = matches!(e, AwsemError::NotImplemented(_) | AwsemError::Internal(_));
        assert_eq!(s >= 500, server);
    }
}

// ---- caller identity ----

#[test]
fn auth_reads_credential() {
    let h = "AWS4-HMAC-SHA256 Credential=AKID/20240101/eu-west-1/secretsmanager/aws4_request, SignedHeaders=host, Signature=abc";
    let a = extract_auth_info(h);
    assert_eq!(a.access_key, "AKID");
    assert_eq!(a.region, "eu-west-1");
    assert_eq!(a.service, "secretsmanager");
    assert_eq!(a.account_id, "AKID");
}

#[test]
fn auth_defaults_without_credential() {
    for h in ["", "Bearer xyz", "Credential=a/b/c"] {
        let a = extract_auth_info(h);
        assert_eq!(a.access_key, "000000000000");
        assert_eq!(a.region, "us-east-1");
        assert_eq!(a.service, "s3");
        assert_eq!(a.account_id, "000000000000");
    }
    let d = AuthInfo::default();
    assert_eq!(d.service, "s3");
}

// ---- function names ----

#[test]
fn validate_accepts_good_names() {
    assert!(validate("my-fn_1").is_ok());
    assert!(validate(&"a".repeat(64)).is_ok());
}

#[test]
fn validate_rejects_bad_names() {
    assert_eq!(validate(""), Err("name must not be empty"));
    assert_eq!(validate(&"a".repeat(65)), Err("name must be at most 64 characters"));
    assert_eq!(validate(&"é".repeat(33)), Err("name must be at most 64 characters"));
    assert_eq!(validate("bad name"), Err("name can only contain letters, numbers, hyphens, and underscores"));
    assert_eq!(validate("a.b"), Err("name can only contain letters, numbers, hyphens, and underscores"));
}

#[test]
fn function_directories() {
    assert_eq!(data_dir_fn(&Some("/data".to_string()), "f"), "/data/f");
    assert_eq!(data_dir_fn(&None, "f"), "./lambdas/f");
    assert_eq!(removal_dir(&Some("/data".to_string()), "f"), Some("/data/lambdas/f".to_string()));
    assert_eq!(removal_dir(&None, "f"), None);
}
