//! Settings of the emulator: the command line, the settings file, their merge
//! and the values each setting resolves to.
use vstd::prelude::*;
use crate::aws::{AwsConfig, default_pool, issuer_url};
use crate::text::{owned, concat2, decimal, push_decimal};

verus! {

/// The characters of an optional string.
pub open spec fn opt_view(o: Option<String>) -> Option<Seq<char>> {
    match o {
        Some(s) => Some(s@),
        None => None,
    }
}

/// The first of two optional values that is present.
pub open spec fn first_of<T>(a: Option<T>, b: Option<T>) -> Option<T> {
    if a is Some { a } else { b }
}

/// The value held, or `d` where there is none.
pub open spec fn or_default<T>(o: Option<T>, d: T) -> T {
    match o {
        Some(v) => v,
        None => d,
    }
}

/// Every setting of the emulator; a setting left out is `None`.
#[derive(Clone)]
pub struct AppConfig {
    pub port: Option<u16>,
    pub config_file: Option<String>,
    pub db_path: Option<String>,
    pub kubeconfig: Option<String>,
    pub k8s_namespace: Option<String>,
    pub rustfs_image: Option<String>,
    pub rustfs_pvc_size: Option<String>,
    pub s3_endpoint: Option<String>,
    pub no_s3: Option<bool>,
    pub no_emr: Option<bool>,
    pub no_lambda: Option<bool>,
    pub lambda_runtime_image: Option<String>,
    pub emr_spark_image: Option<String>,
    pub data_dir: Option<String>,
    pub log_dir: Option<String>,
    pub log_level: Option<String>,
    pub jwt_secret: Option<String>,
    pub host_ip: Option<String>,
    pub region: Option<String>,
    pub account_id: Option<String>,
    pub aws_access_key_id: Option<String>,
    pub aws_secret_access_key: Option<String>,
    pub default_pool_id: Option<String>,
    pub spark_cpu: Option<String>,
    pub spark_memory: Option<String>,
    pub lambda_cpu: Option<String>,
    pub lambda_memory: Option<String>,
    pub emr_poll_interval: Option<u64>,
    pub rustfs_access_key: Option<String>,
    pub rustfs_secret_key: Option<String>,
}

/// The settings read from the settings file.
#[derive(Clone)]
pub struct ConfigFile {
    pub port: Option<u16>,
    pub db_path: Option<String>,
    pub kubeconfig: Option<String>,
    pub k8s_namespace: Option<String>,
    pub rustfs_image: Option<String>,
    pub rustfs_pvc_size: Option<String>,
    pub s3_endpoint: Option<String>,
    pub no_s3: Option<bool>,
    pub no_emr: Option<bool>,
    pub no_lambda: Option<bool>,
    pub lambda_runtime_image: Option<String>,
    pub emr_spark_image: Option<String>,
    pub data_dir: Option<String>,
    pub log_dir: Option<String>,
    pub log_level: Option<String>,
    pub jwt_secret: Option<String>,
    pub host_ip: Option<String>,
    pub region: Option<String>,
    pub account_id: Option<String>,
    pub aws_access_key_id: Option<String>,
    pub aws_secret_access_key: Option<String>,
    pub default_pool_id: Option<String>,
    pub spark_cpu: Option<String>,
    pub spark_memory: Option<String>,
    pub lambda_cpu: Option<String>,
    pub lambda_memory: Option<String>,
    pub emr_poll_interval: Option<u64>,
    pub rustfs_access_key: Option<String>,
    pub rustfs_secret_key: Option<String>,
}

/// The settings with every string taken by its characters.
pub struct AppConfigView {
    pub port: Option<u16>,
    pub config_file: Option<Seq<char>>,
    pub db_path: Option<Seq<char>>,
    pub kubeconfig: Option<Seq<char>>,
    pub k8s_namespace: Option<Seq<char>>,
    pub rustfs_image: Option<Seq<char>>,
    pub rustfs_pvc_size: Option<Seq<char>>,
    pub s3_endpoint: Option<Seq<char>>,
    pub no_s3: Option<bool>,
    pub no_emr: Option<bool>,
    pub no_lambda: Option<bool>,
    pub lambda_runtime_image: Option<Seq<char>>,
    pub emr_spark_image: Option<Seq<char>>,
    pub data_dir: Option<Seq<char>>,
    pub log_dir: Option<Seq<char>>,
    pub log_level: Option<Seq<char>>,
    pub jwt_secret: Option<Seq<char>>,
    pub host_ip: Option<Seq<char>>,
    pub region: Option<Seq<char>>,
    pub account_id: Option<Seq<char>>,
    pub aws_access_key_id: Option<Seq<char>>,
    pub aws_secret_access_key: Option<Seq<char>>,
    pub default_pool_id: Option<Seq<char>>,
    pub spark_cpu: Option<Seq<char>>,
    pub spark_memory: Option<Seq<char>>,
    pub lambda_cpu: Option<Seq<char>>,
    pub lambda_memory: Option<Seq<char>>,
    pub emr_poll_interval: Option<u64>,
    pub rustfs_access_key: Option<Seq<char>>,
    pub rustfs_secret_key: Option<Seq<char>>,
}

/// The settings file with every string taken by its characters.
pub struct ConfigFileView {
    pub port: Option<u16>,
    pub db_path: Option<Seq<char>>,
    pub kubeconfig: Option<Seq<char>>,
    pub k8s_namespace: Option<Seq<char>>,
    pub rustfs_image: Option<Seq<char>>,
    pub rustfs_pvc_size: Option<Seq<char>>,
    pub s3_endpoint: Option<Seq<char>>,
    pub no_s3: Option<bool>,
    pub no_emr: Option<bool>,
    pub no_lambda: Option<bool>,
    pub lambda_runtime_image: Option<Seq<char>>,
    pub emr_spark_image: Option<Seq<char>>,
    pub data_dir: Option<Seq<char>>,
    pub log_dir: Option<Seq<char>>,
    pub log_level: Option<Seq<char>>,
    pub jwt_secret: Option<Seq<char>>,
    pub host_ip: Option<Seq<char>>,
    pub region: Option<Seq<char>>,
    pub account_id: Option<Seq<char>>,
    pub aws_access_key_id: Option<Seq<char>>,
    pub aws_secret_access_key: Option<Seq<char>>,
    pub default_pool_id: Option<Seq<char>>,
    pub spark_cpu: Option<Seq<char>>,
    pub spark_memory: Option<Seq<char>>,
    pub lambda_cpu: Option<Seq<char>>,
    pub lambda_memory: Option<Seq<char>>,
    pub emr_poll_interval: Option<u64>,
    pub rustfs_access_key: Option<Seq<char>>,
    pub rustfs_secret_key: Option<Seq<char>>,
}

impl View for AppConfig {
    type V = AppConfigView;

    open spec fn view(&self) -> AppConfigView {
        AppConfigView {
            port: self.port,
            config_file: opt_view(self.config_file),
            db_path: opt_view(self.db_path),
            kubeconfig: opt_view(self.kubeconfig),
            k8s_namespace: opt_view(self.k8s_namespace),
            rustfs_image: opt_view(self.rustfs_image),
            rustfs_pvc_size: opt_view(self.rustfs_pvc_size),
            s3_endpoint: opt_view(self.s3_endpoint),
            no_s3: self.no_s3,
            no_emr: self.no_emr,
            no_lambda: self.no_lambda,
            lambda_runtime_image: opt_view(self.lambda_runtime_image),
            emr_spark_image: opt_view(self.emr_spark_image),
            data_dir: opt_view(self.data_dir),
            log_dir: opt_view(self.log_dir),
            log_level: opt_view(self.log_level),
            jwt_secret: opt_view(self.jwt_secret),
            host_ip: opt_view(self.host_ip),
            region: opt_view(self.region),
            account_id: opt_view(self.account_id),
            aws_access_key_id: opt_view(self.aws_access_key_id),
            aws_secret_access_key: opt_view(self.aws_secret_access_key),
            default_pool_id: opt_view(self.default_pool_id),
            spark_cpu: opt_view(self.spark_cpu),
            spark_memory: opt_view(self.spark_memory),
            lambda_cpu: opt_view(self.lambda_cpu),
            lambda_memory: opt_view(self.lambda_memory),
            emr_poll_interval: self.emr_poll_interval,
            rustfs_access_key: opt_view(self.rustfs_access_key),
            rustfs_secret_key: opt_view(self.rustfs_secret_key),
        }
    }
}

impl View for ConfigFile {
    type V = ConfigFileView;

    open spec fn view(&self) -> ConfigFileView {
        ConfigFileView {
            port: self.port,
            db_path: opt_view(self.db_path),
            kubeconfig: opt_view(self.kubeconfig),
            k8s_namespace: opt_view(self.k8s_namespace),
            rustfs_image: opt_view(self.rustfs_image),
            rustfs_pvc_size: opt_view(self.rustfs_pvc_size),
            s3_endpoint: opt_view(self.s3_endpoint),
            no_s3: self.no_s3,
            no_emr: self.no_emr,
            no_lambda: self.no_lambda,
            lambda_runtime_image: opt_view(self.lambda_runtime_image),
            emr_spark_image: opt_view(self.emr_spark_image),
            data_dir: opt_view(self.data_dir),
            log_dir: opt_view(self.log_dir),
            log_level: opt_view(self.log_level),
            jwt_secret: opt_view(self.jwt_secret),
            host_ip: opt_view(self.host_ip),
            region: opt_view(self.region),
            account_id: opt_view(self.account_id),
            aws_access_key_id: opt_view(self.aws_access_key_id),
            aws_secret_access_key: opt_view(self.aws_secret_access_key),
            default_pool_id: opt_view(self.default_pool_id),
            spark_cpu: opt_view(self.spark_cpu),
            spark_memory: opt_view(self.spark_memory),
            lambda_cpu: opt_view(self.lambda_cpu),
            lambda_memory: opt_view(self.lambda_memory),
            emr_poll_interval: self.emr_poll_interval,
            rustfs_access_key: opt_view(self.rustfs_access_key),
            rustfs_secret_key: opt_view(self.rustfs_secret_key),
        }
    }
}

impl ConfigFile {
    /// A settings file that sets nothing.
    pub fn empty() -> (f: ConfigFile)
        ensures f@ == empty_file(),
    {
        ConfigFile {
            port: None,
            db_path: None,
            kubeconfig: None,
            k8s_namespace: None,
            rustfs_image: None,
            rustfs_pvc_size: None,
            s3_endpoint: None,
            no_s3: None,
            no_emr: None,
            no_lambda: None,
            lambda_runtime_image: None,
            emr_spark_image: None,
            data_dir: None,
            log_dir: None,
            log_level: None,
            jwt_secret: None,
            host_ip: None,
            region: None,
            account_id: None,
            aws_access_key_id: None,
            aws_secret_access_key: None,
            default_pool_id: None,
            spark_cpu: None,
            spark_memory: None,
            lambda_cpu: None,
            lambda_memory: None,
            emr_poll_interval: None,
            rustfs_access_key: None,
            rustfs_secret_key: None,
        }
    }
}

impl Default for ConfigFile {
    /// A settings file that sets nothing.
    fn default() -> (f: ConfigFile)
        ensures f@ == empty_file(),
    {
        ConfigFile::empty()
    }
}

/// The view of a settings file that sets nothing.
pub open spec fn empty_file() -> ConfigFileView {
    ConfigFileView {
        port: None,
        db_path: None,
        kubeconfig: None,
        k8s_namespace: None,
        rustfs_image: None,
        rustfs_pvc_size: None,
        s3_endpoint: None,
        no_s3: None,
        no_emr: None,
        no_lambda: None,
        lambda_runtime_image: None,
        emr_spark_image: None,
        data_dir: None,
        log_dir: None,
        log_level: None,
        jwt_secret: None,
        host_ip: None,
        region: None,
        account_id: None,
        aws_access_key_id: None,
        aws_secret_access_key: None,
        default_pool_id: None,
        spark_cpu: None,
        spark_memory: None,
        lambda_cpu: None,
        lambda_memory: None,
        emr_poll_interval: None,
        rustfs_access_key: None,
        rustfs_secret_key: None,
    }
}

// ---------------------------------------------------------------------------
// Default locations under the home directory
// ---------------------------------------------------------------------------

/// `base` joined with the relative path `seg`, as `Path::join` joins on Unix:
/// a separator is put between them unless `base` is empty or ends with one.
pub open spec fn path_join(base: Seq<char>, seg: Seq<char>) -> Seq<char> {
    if base.len() == 0 || base.last() == '/' { base + seg } else { base.push('/') + seg }
}

/// `{home}/.config/awsem`, where the home directory is known.
pub open spec fn awsem_home(home: Option<Seq<char>>) -> Option<Seq<char>> {
    match home {
        Some(h) => Some(path_join(path_join(h, ".config"@), "awsem"@)),
        None => None,
    }
}

/// A file or directory under `{home}/.config/awsem`, where the home directory is known.
pub open spec fn under_awsem_home(home: Option<Seq<char>>, seg: Seq<char>) -> Option<Seq<char>> {
    match awsem_home(home) {
        Some(d) => Some(path_join(d, seg)),
        None => None,
    }
}

/// The database path used when none is set: `{home}/.config/awsem/awsem.db`,
/// or `awsem-{port}.db` where the home directory is unknown.
pub open spec fn default_db_path_for(port: u16, home: Option<Seq<char>>) -> Seq<char> {
    match under_awsem_home(home, "awsem.db"@) {
        Some(p) => p,
        None => "awsem-"@ + decimal(port as nat) + ".db"@,
    }
}

/// A hyphenated lower-case UUID: 36 characters, hyphens at 8, 13, 18 and 23,
/// lower-case hexadecimal digits elsewhere.
pub open spec fn is_uuid_text(s: Seq<char>) -> bool {
    &&& s.len() == 36
    &&& forall|i: int| 0 <= i < 36 ==> (if i == 8 || i == 13 || i == 18 || i == 23 {
            s[i] == '-'
        } else {
            ('0' <= s[i] && s[i] <= '9') || ('a' <= s[i] && s[i] <= 'f')
        })
}

fn path_join_exec(base: String, seg: &str) -> (r: String)
    ensures r@ == path_join(base@, seg@),
{
    let cs = crate::text::chars_of(base.as_str());
    let mut r = base;
    if cs.len() == 0 || cs[cs.len() - 1] == '/' {
        r.append(seg);
        r
    } else {
        r.append("/");
        proof {
            reveal_strlit("/");
        }
        r.append(seg);
        r
    }
}

fn awsem_home_exec(home: Option<&str>) -> (r: Option<String>)
    ensures opt_view(r) == awsem_home(match home { Some(h) => Some(h@), None => None }),
{
    match home {
        Some(h) => Some(path_join_exec(path_join_exec(owned(h), ".config"), "awsem")),
        None => None,
    }
}

fn under_home(home: Option<&str>, seg: &str) -> (r: Option<String>)
    ensures opt_view(r) == under_awsem_home(match home { Some(h) => Some(h@), None => None }, seg@),
{
    match awsem_home_exec(home) {
        Some(d) => Some(path_join_exec(d, seg)),
        None => None,
    }
}

/// `{home}/.config/awsem/config.toml`, where the home directory is known.
pub fn default_config_path(home: Option<&str>) -> (r: Option<String>)
    ensures opt_view(r) == under_awsem_home(match home { Some(h) => Some(h@), None => None }, "config.toml"@),
{
    under_home(home, "config.toml")
}

/// `{home}/.config/awsem/data`, where the home directory is known.
pub fn default_data_dir(home: Option<&str>) -> (r: Option<String>)
    ensures opt_view(r) == under_awsem_home(match home { Some(h) => Some(h@), None => None }, "data"@),
{
    under_home(home, "data")
}

/// `{home}/.config/awsem/logs`, where the home directory is known.
pub fn default_log_dir(home: Option<&str>) -> (r: Option<String>)
    ensures opt_view(r) == under_awsem_home(match home { Some(h) => Some(h@), None => None }, "logs"@),
{
    under_home(home, "logs")
}

/// The database path used when none is set.
pub fn default_db_path(port: u16, home: Option<&str>) -> (r: String)
    ensures r@ == default_db_path_for(port, match home { Some(h) => Some(h@), None => None }),
{
    match under_home(home, "awsem.db") {
        Some(p) => p,
        None => {
            let mut r = owned("awsem-");
            push_decimal(&mut r, port as u64);
            r.append(".db");
            r
        }
    }
}

/// A fresh random UUID in its hyphenated lower-case form (`uuid::Uuid::new_v4`).
/// What is stated is only the shape of the text; the value is random.
#[verifier::external_body]
pub(crate) fn new_uuid_text() -> (r: String)
    ensures is_uuid_text(r@),
{
    uuid::Uuid::new_v4().to_string()
}

/// A fresh random secret for signing tokens.
pub fn default_jwt_secret() -> (r: String)
    ensures is_uuid_text(r@),
{
    new_uuid_text()
}

// ---------------------------------------------------------------------------
// Resolving single settings
// ---------------------------------------------------------------------------

impl AppConfig {

    pub fn resolved_port(&self) -> (r: u16)
        ensures r == or_default(self.port, 4566u16),
    {
        match self.port { Some(p) => p, None => 4566 }
    }

    pub fn resolved_db_path(&self) -> (r: &str)
        ensures r@ == or_default(opt_view(self.db_path), "./awsem.db"@),
    {
        match &self.db_path { Some(s) => s.as_str(), None => "./awsem.db" }
    }

    pub fn resolved_k8s_namespace(&self) -> (r: &str)
        ensures r@ == or_default(opt_view(self.k8s_namespace), "awsem"@),
    {
        match &self.k8s_namespace { Some(s) => s.as_str(), None => "awsem" }
    }

    pub fn resolved_rustfs_image(&self) -> (r: &str)
        ensures r@ == or_default(opt_view(self.rustfs_image), "rustfs/rustfs:latest"@),
    {
        match &self.rustfs_image { Some(s) => s.as_str(), None => "rustfs/rustfs:latest" }
    }

    pub fn resolved_rustfs_pvc_size(&self) -> (r: &str)
        ensures r@ == or_default(opt_view(self.rustfs_pvc_size), "10Gi"@),
    {
        match &self.rustfs_pvc_size { Some(s) => s.as_str(), None => "10Gi" }
    }

    pub fn resolved_no_s3(&self) -> (r: bool)
        ensures r == or_default(self.no_s3, false),
    {
        match self.no_s3 { Some(b) => b, None => false }
    }

    pub fn resolved_no_emr(&self) -> (r: bool)
        ensures r == or_default(self.no_emr, false),
    {
        match self.no_emr { Some(b) => b, None => false }
    }

    pub fn resolved_no_lambda(&self) -> (r: bool)
        ensures r == or_default(self.no_lambda, false),
    {
        match self.no_lambda { Some(b) => b, None => false }
    }

    pub fn resolved_emr_spark_image(&self) -> (r: &str)
        ensures r@ == or_default(opt_view(self.emr_spark_image), "spark-s3a:latest"@),
    {
        match &self.emr_spark_image { Some(s) => s.as_str(), None => "spark-s3a:latest" }
    }

    pub fn resolved_data_dir(&self) -> (r: Option<&str>)
        ensures match r { Some(s) => opt_view(self.data_dir) == Some(s@), None => self.data_dir is None },
    {
        match &self.data_dir { Some(s) => Some(s.as_str()), None => None }
    }

    pub fn resolved_log_dir(&self) -> (r: &str)
        ensures r@ == or_default(opt_view(self.log_dir), "./logs"@),
    {
        match &self.log_dir { Some(s) => s.as_str(), None => "./logs" }
    }

    pub fn resolved_log_level(&self) -> (r: &str)
        ensures r@ == or_default(opt_view(self.log_level), "info"@),
    {
        match &self.log_level { Some(s) => s.as_str(), None => "info" }
    }

    pub fn resolved_jwt_secret(&self) -> (r: &str)
        ensures r@ == or_default(opt_view(self.jwt_secret), "awsem-dev-secret"@),
    {
        match &self.jwt_secret { Some(s) => s.as_str(), None => "awsem-dev-secret" }
    }

    pub fn resolved_host_ip(&self) -> (r: &str)
        ensures r@ == or_default(opt_view(self.host_ip), "127.0.0.1"@),
    {
        match &self.host_ip { Some(s) => s.as_str(), None => "127.0.0.1" }
    }

    pub fn resolved_region(&self) -> (r: &str)
        ensures r@ == or_default(opt_view(self.region), "us-east-1"@),
    {
        match &self.region { Some(s) => s.as_str(), None => "us-east-1" }
    }

    pub fn resolved_account_id(&self) -> (r: &str)
        ensures r@ == or_default(opt_view(self.account_id), "000000000000"@),
    {
        match &self.account_id { Some(s) => s.as_str(), None => "000000000000" }
    }

    pub fn resolved_aws_access_key_id(&self) -> (r: &str)
        ensures r@ == or_default(opt_view(self.aws_access_key_id), "awsem"@),
    {
        match &self.aws_access_key_id { Some(s) => s.as_str(), None => "awsem" }
    }

    pub fn resolved_aws_secret_access_key(&self) -> (r: &str)
        ensures r@ == or_default(opt_view(self.aws_secret_access_key), "awsem"@),
    {
        match &self.aws_secret_access_key { Some(s) => s.as_str(), None => "awsem" }
    }

    pub fn resolved_spark_cpu(&self) -> (r: &str)
        ensures r@ == or_default(opt_view(self.spark_cpu), "500m"@),
    {
        match &self.spark_cpu { Some(s) => s.as_str(), None => "500m" }
    }

    pub fn resolved_spark_memory(&self) -> (r: &str)
        ensures r@ == or_default(opt_view(self.spark_memory), "512Mi"@),
    {
        match &self.spark_memory { Some(s) => s.as_str(), None => "512Mi" }
    }

    pub fn resolved_lambda_cpu(&self) -> (r: &str)
        ensures r@ == or_default(opt_view(self.lambda_cpu), "250m"@),
    {
        match &self.lambda_cpu { Some(s) => s.as_str(), None => "250m" }
    }

    pub fn resolved_lambda_memory(&self) -> (r: &str)
        ensures r@ == or_default(opt_view(self.lambda_memory), "256Mi"@),
    {
        match &self.lambda_memory { Some(s) => s.as_str(), None => "256Mi" }
    }

    pub fn resolved_emr_poll_interval(&self) -> (r: u64)
        ensures r == or_default(self.emr_poll_interval, 15u64),
    {
        match self.emr_poll_interval { Some(v) => v, None => 15 }
    }

    pub fn resolved_rustfs_access_key(&self) -> (r: &str)
        ensures r@ == or_default(opt_view(self.rustfs_access_key), "awsem"@),
    {
        match &self.rustfs_access_key { Some(s) => s.as_str(), None => "awsem" }
    }

    pub fn resolved_rustfs_secret_key(&self) -> (r: &str)
        ensures r@ == or_default(opt_view(self.rustfs_secret_key), "awsem"@),
    {
        match &self.rustfs_secret_key { Some(s) => s.as_str(), None => "awsem" }
    }

    /// The default pool: the one set, or `{region}_default` for the resolved region.
    pub fn resolved_default_pool_id(&self) -> (r: String)
        ensures r@ == or_default(opt_view(self.default_pool_id), or_default(opt_view(self.region), "us-east-1"@) + "_default"@),
    {
        match &self.default_pool_id {
            Some(p) => p.clone(),
            None => concat2(self.resolved_region(), "_default"),
        }
    }

    /// The account settings the services share, built from the resolved values.
    pub fn resolved_aws_config(&self) -> (c: AwsConfig)
        ensures
            c.region@ == or_default(opt_view(self.region), "us-east-1"@),
            c.account_id@ == or_default(opt_view(self.account_id), "000000000000"@),
            c.access_key_id@ == or_default(opt_view(self.aws_access_key_id), "awsem"@),
            c.secret_access_key@ == or_default(opt_view(self.aws_secret_access_key), "awsem"@),
            c.default_pool_id@ == default_pool(c.region@,
                or_default(opt_view(self.default_pool_id), or_default(opt_view(self.region), "us-east-1"@) + "_default"@)),
            c.jwt_issuer_url@ == issuer_url(c.region@, c.default_pool_id@),
    {
        let pool = self.resolved_default_pool_id();
        AwsConfig::new(self.resolved_region(), self.resolved_account_id(), self.resolved_aws_access_key_id(),
            self.resolved_aws_secret_access_key(), pool.as_str())
    }
}

// ---------------------------------------------------------------------------
// Merging the command line with the settings file
// ---------------------------------------------------------------------------

/// The settings after merging: the command line wins over the settings file,
/// and the file over the built-in default. `secret` is the signing secret
/// taken where neither sets one.
pub open spec fn merged(cli: AppConfigView, file: ConfigFileView, home: Option<Seq<char>>, secret: Seq<char>) -> AppConfigView {
    let port = or_default(first_of(cli.port, file.port), 4566u16);
    AppConfigView {
        port: Some(port),
        config_file: cli.config_file,
        db_path: Some(or_default(first_of(cli.db_path, file.db_path), default_db_path_for(port, home))),
        kubeconfig: first_of(cli.kubeconfig, file.kubeconfig),
        k8s_namespace: Some(or_default(first_of(cli.k8s_namespace, file.k8s_namespace), "awsem"@)),
        rustfs_image: Some(or_default(first_of(cli.rustfs_image, file.rustfs_image), "rustfs/rustfs:latest"@)),
        rustfs_pvc_size: Some(or_default(first_of(cli.rustfs_pvc_size, file.rustfs_pvc_size), "10Gi"@)),
        s3_endpoint: first_of(cli.s3_endpoint, file.s3_endpoint),
        no_s3: Some(or_default(first_of(cli.no_s3, file.no_s3), false)),
        no_emr: Some(or_default(first_of(cli.no_emr, file.no_emr), false)),
        no_lambda: Some(or_default(first_of(cli.no_lambda, file.no_lambda), false)),
        lambda_runtime_image: first_of(cli.lambda_runtime_image, file.lambda_runtime_image),
        emr_spark_image: Some(or_default(first_of(cli.emr_spark_image, file.emr_spark_image), "spark-s3a:latest"@)),
        data_dir: first_of(first_of(cli.data_dir, file.data_dir), under_awsem_home(home, "data"@)),
        log_dir: first_of(first_of(cli.log_dir, file.log_dir), under_awsem_home(home, "logs"@)),
        log_level: Some(or_default(first_of(cli.log_level, file.log_level), "info"@)),
        jwt_secret: Some(or_default(first_of(cli.jwt_secret, file.jwt_secret), secret)),
        host_ip: first_of(cli.host_ip, file.host_ip),
        region: Some(or_default(first_of(cli.region, file.region), "us-east-1"@)),
        account_id: Some(or_default(first_of(cli.account_id, file.account_id), "000000000000"@)),
        aws_access_key_id: Some(or_default(first_of(cli.aws_access_key_id, file.aws_access_key_id), "awsem"@)),
        aws_secret_access_key: Some(or_default(first_of(cli.aws_secret_access_key, file.aws_secret_access_key), "awsem"@)),
        default_pool_id: first_of(cli.default_pool_id, file.default_pool_id),
        spark_cpu: Some(or_default(first_of(cli.spark_cpu, file.spark_cpu), "500m"@)),
        spark_memory: Some(or_default(first_of(cli.spark_memory, file.spark_memory), "512Mi"@)),
        lambda_cpu: Some(or_default(first_of(cli.lambda_cpu, file.lambda_cpu), "250m"@)),
        lambda_memory: Some(or_default(first_of(cli.lambda_memory, file.lambda_memory), "256Mi"@)),
        emr_poll_interval: Some(or_default(first_of(cli.emr_poll_interval, file.emr_poll_interval), 15u64)),
        rustfs_access_key: Some(or_default(first_of(cli.rustfs_access_key, file.rustfs_access_key), "awsem"@)),
        rustfs_secret_key: Some(or_default(first_of(cli.rustfs_secret_key, file.rustfs_secret_key), "awsem"@)),
    }
}

fn pick(a: Option<String>, b: Option<String>) -> (r: Option<String>)
    ensures opt_view(r) == first_of(opt_view(a), opt_view(b)),
{
    match a {
        Some(x) => Some(x),
        None => b,
    }
}

fn pick_or(a: Option<String>, b: Option<String>, d: &str) -> (r: String)
    ensures r@ == or_default(first_of(opt_view(a), opt_view(b)), d@),
{
    match pick(a, b) {
        Some(x) => x,
        None => owned(d),
    }
}

fn pick_copy<T: Copy>(a: Option<T>, b: Option<T>, d: T) -> (r: T)
    ensures r == or_default(first_of(a, b), d),
{
    match a {
        Some(x) => x,
        None => match b {
            Some(y) => y,
            None => d,
        },
    }
}

impl AppConfig {
    /// Merges the command line with the settings file. `home` is the home
    /// directory, under which the default database, data and log locations lie.
    /// Where neither sets a signing secret, a fresh random one is taken.
    pub fn merge(cli: AppConfig, file: ConfigFile, home: Option<String>) -> (m: AppConfig)
        ensures
            m@.jwt_secret is Some,
            m@ == merged(cli@, file@, opt_view(home), m@.jwt_secret->0),
            cli@.jwt_secret is None && file@.jwt_secret is None ==> is_uuid_text(m@.jwt_secret->0),
    {
        let h: Option<&str> = match &home { Some(s) => Some(s.as_str()), None => None };
        let port = pick_copy(cli.port, file.port, 4566u16);
        let db_path = match pick(cli.db_path, file.db_path) {
            Some(p) => p,
            None => default_db_path(port, h),
        };
        let data_dir = match pick(cli.data_dir, file.data_dir) {
            Some(d) => Some(d),
            None => default_data_dir(h),
        };
        let log_dir = match pick(cli.log_dir, file.log_dir) {
            Some(d) => Some(d),
            None => default_log_dir(h),
        };
        let jwt_secret = match pick(cli.jwt_secret, file.jwt_secret) {
            Some(s) => s,
            None => default_jwt_secret(),
        };
        AppConfig {
            port: Some(port),
            config_file: cli.config_file,
            db_path: Some(db_path),
            kubeconfig: pick(cli.kubeconfig, file.kubeconfig),
            k8s_namespace: Some(pick_or(cli.k8s_namespace, file.k8s_namespace, "awsem")),
            rustfs_image: Some(pick_or(cli.rustfs_image, file.rustfs_image, "rustfs/rustfs:latest")),
            rustfs_pvc_size: Some(pick_or(cli.rustfs_pvc_size, file.rustfs_pvc_size, "10Gi")),
            s3_endpoint: pick(cli.s3_endpoint, file.s3_endpoint),
            no_s3: Some(pick_copy(cli.no_s3, file.no_s3, false)),
            no_emr: Some(pick_copy(cli.no_emr, file.no_emr, false)),
            no_lambda: Some(pick_copy(cli.no_lambda, file.no_lambda, false)),
            lambda_runtime_image: pick(cli.lambda_runtime_image, file.lambda_runtime_image),
            emr_spark_image: Some(pick_or(cli.emr_spark_image, file.emr_spark_image, "spark-s3a:latest")),
            data_dir: data_dir,
            log_dir: log_dir,
            log_level: Some(pick_or(cli.log_level, file.log_level, "info")),
            jwt_secret: Some(jwt_secret),
            host_ip: pick(cli.host_ip, file.host_ip),
            region: Some(pick_or(cli.region, file.region, "us-east-1")),
            account_id: Some(pick_or(cli.account_id, file.account_id, "000000000000")),
            aws_access_key_id: Some(pick_or(cli.aws_access_key_id, file.aws_access_key_id, "awsem")),
            aws_secret_access_key: Some(pick_or(cli.aws_secret_access_key, file.aws_secret_access_key, "awsem")),
            default_pool_id: pick(cli.default_pool_id, file.default_pool_id),
            spark_cpu: Some(pick_or(cli.spark_cpu, file.spark_cpu, "500m")),
            spark_memory: Some(pick_or(cli.spark_memory, file.spark_memory, "512Mi")),
            lambda_cpu: Some(pick_or(cli.lambda_cpu, file.lambda_cpu, "250m")),
            lambda_memory: Some(pick_or(cli.lambda_memory, file.lambda_memory, "256Mi")),
            emr_poll_interval: Some(pick_copy(cli.emr_poll_interval, file.emr_poll_interval, 15u64)),
            rustfs_access_key: Some(pick_or(cli.rustfs_access_key, file.rustfs_access_key, "awsem")),
            rustfs_secret_key: Some(pick_or(cli.rustfs_secret_key, file.rustfs_secret_key, "awsem")),
        }
    }
}

/// Merging again with an empty settings file, under the same home directory,
/// changes nothing: every setting the first merge decided stays as it was.
pub proof fn lemma_merge_idempotent(cli: AppConfigView, file: ConfigFileView, home: Option<Seq<char>>, secret: Seq<char>, other_secret: Seq<char>)
    ensures
        merged(merged(cli, file, home, secret), empty_file(), home, other_secret) == merged(cli, file, home, secret),
{
}

/// A setting given on the command line is the merged setting, whatever the file says.
pub proof fn lemma_command_line_wins(cli: AppConfigView, file: ConfigFileView, home: Option<Seq<char>>, secret: Seq<char>)
    ensures
        cli.region is Some ==> merged(cli, file, home, secret).region == cli.region,
        cli.port is Some ==> merged(cli, file, home, secret).port == cli.port,
        cli.db_path is Some ==> merged(cli, file, home, secret).db_path == cli.db_path,
        cli.data_dir is Some ==> merged(cli, file, home, secret).data_dir == cli.data_dir,
        cli.jwt_secret is Some ==> merged(cli, file, home, secret).jwt_secret == cli.jwt_secret,
        cli.default_pool_id is Some ==> merged(cli, file, home, secret).default_pool_id == cli.default_pool_id,
        cli.k8s_namespace is Some ==> merged(cli, file, home, secret).k8s_namespace == cli.k8s_namespace,
        cli.region is None ==> merged(cli, file, home, secret).region == Some(or_default(file.region, "us-east-1"@)),
{
}

} // verus!
