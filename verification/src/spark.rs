//! The `spark-submit` command line of an EMR job run, and the image it runs in.
use vstd::prelude::*;
use crate::text::{views, owned, concat2, str_eq, starts_with};

verus! {

/// The `sparkSubmitJobDriver` of a job run: the program to run, its arguments
/// (`None` for an argument that is not a string) and the extra parameters for
/// `spark-submit`.
pub struct SparkSubmitDriver {
    pub entry_point: Option<String>,
    pub entry_point_arguments: Vec<Option<String>>,
    pub spark_submit_parameters: Option<String>,
}

/// A driver with its strings taken by their characters.
pub struct SparkDriverView {
    pub entry_point: Option<Seq<char>>,
    pub entry_point_arguments: Seq<Option<Seq<char>>>,
    pub spark_submit_parameters: Option<Seq<char>>,
}

pub open spec fn opt_chars(o: Option<String>) -> Option<Seq<char>> {
    match o {
        Some(s) => Some(s@),
        None => None,
    }
}

impl View for SparkSubmitDriver {
    type V = SparkDriverView;

    open spec fn view(&self) -> SparkDriverView {
        SparkDriverView {
            entry_point: opt_chars(self.entry_point),
            entry_point_arguments: self.entry_point_arguments@.map_values(|a: Option<String>| opt_chars(a)),
            spark_submit_parameters: opt_chars(self.spark_submit_parameters),
        }
    }
}

/// The words a shell would split `s` into, or `None` where `s` is no valid
/// shell text (`shlex::split`).
pub uninterp spec fn shlex_words(s: Seq<char>) -> Option<Seq<Seq<char>>>;

/// Splits `s` into words as a POSIX shell would (`shlex::split`).
#[verifier::external_body]
fn shlex_split(s: &str) -> (r: Option<Vec<String>>)
    ensures
        match r {
            Some(v) => shlex_words(s@) == Some(views(v@)),
            None => shlex_words(s@) is None,
        },
{
    shlex::split(s)
}

/// Whether a user parameter sets the master or the deploy mode, which the
/// emulator decides itself.
pub open spec fn is_master_or_mode(p: Seq<char>) -> bool {
    p == "--master"@ || p == "--deploy-mode"@
}

pub open spec fn is_master_or_mode_assignment(p: Seq<char>) -> bool {
    "--master="@.is_prefix_of(p) || "--deploy-mode="@.is_prefix_of(p)
}

/// The user's `spark-submit` words without `--master`/`--deploy-mode` and the
/// word after each, and without `--master=...`/`--deploy-mode=...`.
pub open spec fn filter_params(parts: Seq<Seq<char>>) -> Seq<Seq<char>>
    decreases parts.len(),
{
    if parts.len() == 0 {
        Seq::<Seq<char>>::empty()
    } else if is_master_or_mode(parts[0]) {
        if parts.len() >= 2 { filter_params(parts.skip(2)) } else { Seq::<Seq<char>>::empty() }
    } else if is_master_or_mode_assignment(parts[0]) {
        filter_params(parts.skip(1))
    } else {
        seq![parts[0]] + filter_params(parts.skip(1))
    }
}

/// The settings the emulator always passes: cluster mode on Kubernetes, the
/// image, namespace and service account, the job-run labels and the S3 store.
pub open spec fn fixed_args(image: Seq<char>, namespace: Seq<char>, job_id: Seq<char>, access_key: Seq<char>, secret_key: Seq<char>) -> Seq<Seq<char>> {
    seq![
        "--master"@, "k8s://https://kubernetes.default.svc"@,
        "--deploy-mode"@, "cluster"@,
        "--conf"@, "spark.kubernetes.container.image="@ + image,
        "--conf"@, "spark.kubernetes.namespace="@ + namespace,
        "--conf"@, "spark.kubernetes.authenticate.driver.serviceAccountName=spark"@,
        "--conf"@, "spark.kubernetes.authenticate.executor.serviceAccountName=spark"@,
        "--conf"@, "spark.kubernetes.driver.label.awsem-job-run-id="@ + job_id,
        "--conf"@, "spark.kubernetes.executor.label.awsem-job-run-id="@ + job_id,
        "--conf"@, "spark.hadoop.fs.s3a.endpoint=http://rustfs-svc:9000"@,
        "--conf"@, "spark.hadoop.fs.s3a.access.key="@ + access_key,
        "--conf"@, "spark.hadoop.fs.s3a.secret.key="@ + secret_key,
        "--conf"@, "spark.hadoop.fs.s3a.path.style.access=true"@,
        "--conf"@, "spark.kubernetes.executor.deleteOnTermination=true"@,
        "--conf"@, "spark.kubernetes.driver.deleteOnTermination=false"@
    ]
}

/// The string arguments among `args`, in order.
pub open spec fn string_args(args: Seq<Option<Seq<char>>>) -> Seq<Seq<char>>
    decreases args.len(),
{
    if args.len() == 0 {
        Seq::<Seq<char>>::empty()
    } else {
        let r = string_args(args.drop_last());
        match args.last() {
            Some(a) => r.push(a),
            None => r,
        }
    }
}

/// The program and its arguments, at the end of the command line.
pub open spec fn entry_args(driver: Option<SparkDriverView>) -> Seq<Seq<char>> {
    match driver {
        Some(d) => (match d.entry_point {
            Some(e) => seq![e],
            None => Seq::<Seq<char>>::empty(),
        }) + string_args(d.entry_point_arguments),
        None => Seq::<Seq<char>>::empty(),
    }
}

/// The whole command line, given the words of the user's parameters.
pub open spec fn spark_args(user_words: Seq<Seq<char>>, driver: Option<SparkDriverView>, image: Seq<char>,
    namespace: Seq<char>, job_id: Seq<char>, access_key: Seq<char>, secret_key: Seq<char>) -> Seq<Seq<char>> {
    filter_params(user_words) + fixed_args(image, namespace, job_id, access_key, secret_key) + entry_args(driver)
}

/// The words of the user's parameters: none where the driver sets none, and
/// none where they are no valid shell text.
pub open spec fn user_words(driver: Option<SparkDriverView>) -> Seq<Seq<char>> {
    match driver {
        Some(d) => match d.spark_submit_parameters {
            Some(p) => match shlex_words(p) {
                Some(w) => w,
                None => Seq::<Seq<char>>::empty(),
            },
            None => Seq::<Seq<char>>::empty(),
        },
        None => Seq::<Seq<char>>::empty(),
    }
}

pub open spec fn opt_driver(d: Option<SparkSubmitDriver>) -> Option<SparkDriverView> {
    match d {
        Some(x) => Some(x@),
        None => None,
    }
}

fn push_str(v: &mut Vec<String>, s: &str)
    ensures views(final(v)@) == views(old(v)@).push(s@),
{
    let ghost before = v@;
    v.push(owned(s));
    assert(views(v@) =~= views(before).push(s@));
}

fn push_cat(v: &mut Vec<String>, a: &str, b: &str)
    ensures views(final(v)@) == views(old(v)@).push(a@ + b@),
{
    let ghost before = v@;
    v.push(concat2(a, b));
    assert(views(v@) =~= views(before).push(a@ + b@));
}

fn is_flag(p: &str) -> (r: bool)
    ensures r == is_master_or_mode(p@),
{
    str_eq(p, "--master") || str_eq(p, "--deploy-mode")
}

fn is_flag_assignment(p: &str) -> (r: bool)
    ensures r == is_master_or_mode_assignment(p@),
{
    starts_with(p, "--master=") || starts_with(p, "--deploy-mode=")
}

/// Drops the master and deploy-mode settings from the user's words.
pub fn filter_submit_params(parts: &Vec<String>) -> (out: Vec<String>)
    ensures views(out@) == filter_params(views(parts@)),
{
    let ghost all = views(parts@);
    let mut out: Vec<String> = Vec::new();
    let mut i: usize = 0;
    assert(all.skip(0) =~= all);
    while i < parts.len()
        invariant
            all == views(parts@),
            0 <= i <= parts.len(),
            views(out@) + filter_params(all.skip(i as int)) == filter_params(all),
        decreases parts.len() - i,
    {
        let p = parts[i].as_str();
        let ghost rest = all.skip(i as int);
        assert(rest[0] == p@);
        if is_flag(p) {
            if i + 1 < parts.len() {
                assert(rest.skip(2) =~= all.skip(i + 2));
                i += 2;
            } else {
                assert(filter_params(rest) =~= Seq::<Seq<char>>::empty());
                assert(views(out@) + Seq::<Seq<char>>::empty() =~= views(out@));
                i = parts.len();
                assert(all.skip(i as int) =~= Seq::<Seq<char>>::empty());
            }
        } else if is_flag_assignment(p) {
            assert(rest.skip(1) =~= all.skip(i + 1));
            i += 1;
        } else {
            assert(rest.skip(1) =~= all.skip(i + 1));
            let ghost before = views(out@);
            out.push(parts[i].clone());
            assert(views(out@) =~= before.push(p@));
            assert(before + (seq![p@] + filter_params(all.skip(i + 1))) =~= before.push(p@) + filter_params(all.skip(i + 1)));
            i += 1;
        }
    }
    assert(filter_params(all.skip(i as int)) =~= Seq::<Seq<char>>::empty());
    assert(views(out@) + Seq::<Seq<char>>::empty() =~= views(out@));
    out
}

/// The command line of a job run, given the words of the user's parameters
/// (as a shell splits them).
pub fn spark_submit_args(user_words: &Vec<String>, job_driver: &Option<SparkSubmitDriver>, image: &str, namespace: &str,
    job_id: &str, rustfs_access_key: &str, rustfs_secret_key: &str) -> (args: Vec<String>)
    ensures
        views(args@) == spark_args(views(user_words@), opt_driver(*job_driver), image@, namespace@, job_id@,
            rustfs_access_key@, rustfs_secret_key@),
{
    let mut args = filter_submit_params(user_words);
    let ghost user = views(args@);
    push_str(&mut args, "--master");
    push_str(&mut args, "k8s://https://kubernetes.default.svc");
    push_str(&mut args, "--deploy-mode");
    push_str(&mut args, "cluster");
    push_str(&mut args, "--conf");
    push_cat(&mut args, "spark.kubernetes.container.image=", image);
    push_str(&mut args, "--conf");
    push_cat(&mut args, "spark.kubernetes.namespace=", namespace);
    push_str(&mut args, "--conf");
    push_str(&mut args, "spark.kubernetes.authenticate.driver.serviceAccountName=spark");
    push_str(&mut args, "--conf");
    push_str(&mut args, "spark.kubernetes.authenticate.executor.serviceAccountName=spark");
    push_str(&mut args, "--conf");
    push_cat(&mut args, "spark.kubernetes.driver.label.awsem-job-run-id=", job_id);
    push_str(&mut args, "--conf");
    push_cat(&mut args, "spark.kubernetes.executor.label.awsem-job-run-id=", job_id);
    push_str(&mut args, "--conf");
    push_str(&mut args, "spark.hadoop.fs.s3a.endpoint=http://rustfs-svc:9000");
    push_str(&mut args, "--conf");
    push_cat(&mut args, "spark.hadoop.fs.s3a.access.key=", rustfs_access_key);
    push_str(&mut args, "--conf");
    push_cat(&mut args, "spark.hadoop.fs.s3a.secret.key=", rustfs_secret_key);
    push_str(&mut args, "--conf");
    push_str(&mut args, "spark.hadoop.fs.s3a.path.style.access=true");
    push_str(&mut args, "--conf");
    push_str(&mut args, "spark.kubernetes.executor.deleteOnTermination=true");
    push_str(&mut args, "--conf");
    push_str(&mut args, "spark.kubernetes.driver.deleteOnTermination=false");
    assert(views(args@) =~= user + fixed_args(image@, namespace@, job_id@, rustfs_access_key@, rustfs_secret_key@));
    let ghost head = views(args@);
    match job_driver {
        Some(driver) => {
            match &driver.entry_point {
                Some(entry) => {
                    push_str(&mut args, entry.as_str());
                }
                None => {}
            }
            let ghost mid = views(args@);
            let ghost all_args = driver@.entry_point_arguments;
            let mut k: usize = 0;
            while k < driver.entry_point_arguments.len()
                invariant
                    all_args == driver.entry_point_arguments@.map_values(|a: Option<String>| opt_chars(a)),
                    0 <= k <= driver.entry_point_arguments.len(),
                    views(args@) == mid + string_args(all_args.take(k as int)),
                decreases driver.entry_point_arguments.len() - k,
            {
                assert(all_args.take(k + 1).drop_last() =~= all_args.take(k as int));
                match &driver.entry_point_arguments[k] {
                    Some(a) => {
                        push_str(&mut args, a.as_str());
                    }
                    None => {}
                }
                k += 1;
            }
            assert(all_args.take(k as int) =~= all_args);
            assert(views(args@) =~= head + entry_args(opt_driver(*job_driver)));
        }
        None => {
            assert(views(args@) =~= head + entry_args(opt_driver(*job_driver)));
        }
    }
    args
}

/// The `spark-submit` command line of a job run: the user's parameters split
/// as a shell would, without master and deploy mode, then the emulator's own
/// settings, then the program and its arguments.
pub fn build_args(job_driver: &Option<SparkSubmitDriver>, image: &str, namespace: &str, job_id: &str,
    rustfs_access_key: &str, rustfs_secret_key: &str) -> (args: Vec<String>)
    ensures
        views(args@) == spark_args(user_words(opt_driver(*job_driver)), opt_driver(*job_driver), image@, namespace@,
            job_id@, rustfs_access_key@, rustfs_secret_key@),
{
    let words: Vec<String> = match job_driver {
        Some(d) => match &d.spark_submit_parameters {
            Some(p) => match shlex_split(p.as_str()) {
                Some(w) => w,
                None => Vec::new(),
            },
            None => Vec::new(),
        },
        None => Vec::new(),
    };
    assert(views(words@) =~= user_words(opt_driver(*job_driver)));
    spark_submit_args(&words, job_driver, image, namespace, job_id, rustfs_access_key, rustfs_secret_key)
}

/// No word the user passed can set the master or the deploy mode.
pub proof fn lemma_filtered_params_free_of_master(parts: Seq<Seq<char>>)
    ensures
        forall|i: int| 0 <= i < filter_params(parts).len() ==>
            !is_master_or_mode(#[trigger] filter_params(parts)[i]) && !is_master_or_mode_assignment(filter_params(parts)[i]),
    decreases parts.len(),
{
    let f = filter_params(parts);
    if parts.len() == 0 {
    } else {
        let rest = if is_master_or_mode(parts[0]) {
            if parts.len() >= 2 { parts.skip(2) } else { Seq::<Seq<char>>::empty() }
        } else {
            parts.skip(1)
        };
        lemma_filtered_params_free_of_master(rest);
        let r = filter_params(rest);
        if is_master_or_mode(parts[0]) || is_master_or_mode_assignment(parts[0]) {
            assert(f == r);
        } else {
            assert(f == seq![parts[0]] + r);
            assert forall|i: int| 0 <= i < f.len() implies
                !is_master_or_mode(#[trigger] f[i]) && !is_master_or_mode_assignment(f[i]) by {
                if i > 0 {
                    assert(f[i] == r[i - 1]);
                } else {
                    assert(f[i] == parts[0]);
                }
            }
        }
    }
}

/// `--master` and `--deploy-mode` take the next word as their value, and both
/// go: what follows them is kept as if they had not been there. A setting
/// with no word after it goes alone.
pub proof fn lemma_setting_dropped_with_value(v: Seq<char>, w: Seq<Seq<char>>)
    ensures
        filter_params(seq!["--master"@, v] + w) == filter_params(w),
        filter_params(seq!["--deploy-mode"@, v] + w) == filter_params(w),
        filter_params(seq!["--master"@]) == Seq::<Seq<char>>::empty(),
        filter_params(seq!["--deploy-mode"@]) == Seq::<Seq<char>>::empty(),
{
    let a = seq!["--master"@, v] + w;
    let b = seq!["--deploy-mode"@, v] + w;
    assert(a[0] == "--master"@ && a.len() >= 2);
    assert(a.skip(2) =~= w);
    assert(b[0] == "--deploy-mode"@ && b.len() >= 2);
    assert(b.skip(2) =~= w);
    assert(seq!["--master"@][0] == "--master"@);
    assert(seq!["--deploy-mode"@][0] == "--deploy-mode"@);
}

/// A word `--master=...` or `--deploy-mode=...` is dropped alone; any other
/// word (but the two settings themselves) is kept, in its place.
pub proof fn lemma_single_word_kept_or_dropped(x: Seq<char>, w: Seq<Seq<char>>)
    ensures
        "--master="@.is_prefix_of(x) || "--deploy-mode="@.is_prefix_of(x)
            ==> filter_params(seq![x] + w) == filter_params(w),
        x != "--master"@ && x != "--deploy-mode"@ && !"--master="@.is_prefix_of(x) && !"--deploy-mode="@.is_prefix_of(x)
            ==> filter_params(seq![x] + w) == seq![x] + filter_params(w),
{
    reveal_strlit("--master");
    reveal_strlit("--deploy-mode");
    reveal_strlit("--master=");
    reveal_strlit("--deploy-mode=");
    let a = seq![x] + w;
    assert(a[0] == x);
    assert(a.skip(1) =~= w);
    if "--master="@.is_prefix_of(x) {
        assert(x.subrange(0, 9)[2] == x[2]);
        assert(x[2] == "--master="@[2]);
        assert(x[2] != "--deploy-mode"@[2]);
        assert(x.len() != "--master"@.len());
    }
    if "--deploy-mode="@.is_prefix_of(x) {
        assert(x.subrange(0, 14)[2] == x[2]);
        assert(x[2] == "--deploy-mode="@[2]);
        assert(x[2] != "--master"@[2]);
        assert(x.len() != "--deploy-mode"@.len());
    }
}

/// A job run always runs on the emulator's cluster in cluster mode: the first
/// `--master` and `--deploy-mode` of its command line are the emulator's.
pub proof fn lemma_master_is_fixed(user: Seq<Seq<char>>, driver: Option<SparkDriverView>, image: Seq<char>,
    namespace: Seq<char>, job_id: Seq<char>, access_key: Seq<char>, secret_key: Seq<char>)
    ensures ({
        let args = spark_args(user, driver, image, namespace, job_id, access_key, secret_key);
        let k = filter_params(user).len() as int;
        &&& args[k] == "--master"@
        &&& args[k + 1] == "k8s://https://kubernetes.default.svc"@
        &&& args[k + 2] == "--deploy-mode"@
        &&& args[k + 3] == "cluster"@
        &&& forall|i: int| 0 <= i < k ==> !is_master_or_mode(#[trigger] args[i])
    }),
{
    lemma_filtered_params_free_of_master(user);
    let args = spark_args(user, driver, image, namespace, job_id, access_key, secret_key);
    let f = filter_params(user);
    assert forall|i: int| 0 <= i < f.len() implies !is_master_or_mode(#[trigger] args[i]) by {
        assert(args[i] == f[i]);
    }
}

/// The image a job run uses: for an EMR release label (`emr-...`) the
/// configured Spark image, or `apache/spark:latest` where none is configured;
/// for any other label the EMR-on-EKS image of that release.
pub fn spark_image(release: &str, emr_spark_image: Option<&str>) -> (image: String)
    ensures
        image@ == (if "emr-"@.is_prefix_of(release@) {
            match emr_spark_image {
                Some(i) => i@,
                None => "apache/spark:latest"@,
            }
        } else {
            "public.ecr.aws/emr-on-eks/spark/"@ + release@
        }),
{
    if starts_with(release, "emr-") {
        match emr_spark_image {
            Some(i) => owned(i),
            None => owned("apache/spark:latest"),
        }
    } else {
        concat2("public.ecr.aws/emr-on-eks/spark/", release)
    }
}

} // verus!
