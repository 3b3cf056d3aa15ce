//! The account settings every service shares, and the ARNs they print.
use vstd::prelude::*;
use crate::arn::{ArnFields, aws_arn, arn_text, arn_parse, arn_fields_unambiguous, lemma_parse_after_print};
use crate::text::{owned, concat2, free_of};

verus! {

/// Region, account, credentials and the default Cognito user pool.
#[derive(Clone, Debug)]
pub struct AwsConfig {
    pub region: String,
    pub account_id: String,
    pub access_key_id: String,
    pub secret_access_key: String,
    pub default_pool_id: String,
    pub jwt_issuer_url: String,
}

/// The pool a configuration falls back to: the one given, or `{region}_default`
/// where none is given.
pub open spec fn default_pool(region: Seq<char>, default_pool_id: Seq<char>) -> Seq<char> {
    if default_pool_id.len() == 0 { region + "_default"@ } else { default_pool_id }
}

/// The issuer that tokens of a pool name.
pub open spec fn issuer_url(region: Seq<char>, pool: Seq<char>) -> Seq<char> {
    "https://cognito-idp."@ + region + ".amazonaws.com/"@ + pool
}

impl AwsConfig {
    pub fn new(region: &str, account_id: &str, access_key_id: &str, secret_access_key: &str, default_pool_id: &str) -> (c: AwsConfig)
        ensures
            c.region@ == region@,
            c.account_id@ == account_id@,
            c.access_key_id@ == access_key_id@,
            c.secret_access_key@ == secret_access_key@,
            c.default_pool_id@ == default_pool(region@, default_pool_id@),
            c.jwt_issuer_url@ == issuer_url(region@, default_pool(region@, default_pool_id@)),
    {
        let pool = if default_pool_id.is_empty() { concat2(region, "_default") } else { owned(default_pool_id) };
        let mut url = concat2("https://cognito-idp.", region);
        url.append(".amazonaws.com/");
        url.append(pool.as_str());
        AwsConfig {
            region: owned(region),
            account_id: owned(account_id),
            access_key_id: owned(access_key_id),
            secret_access_key: owned(secret_access_key),
            default_pool_id: pool,
            jwt_issuer_url: url,
        }
    }

    /// The partition of every ARN printed here.
    pub fn partition(&self) -> (p: &'static str)
        ensures p@ == "aws"@,
    {
        "aws"
    }

    /// `arn:aws:{service}:{region}:{account}:{resource}` for this configuration.
    fn regional_arn(&self, service: &str, resource: String) -> (r: String)
        ensures r@ == arn_text(aws_arn(service@, self.region@, self.account_id@, resource@)),
    {
        let mut r = owned("arn:");
        r.append(self.partition());
        r.append(":");
        r.append(service);
        r.append(":");
        r.append(self.region.as_str());
        r.append(":");
        r.append(self.account_id.as_str());
        r.append(":");
        r.append(resource.as_str());
        r
    }

    pub fn lambda_arn(&self, name: &str) -> (r: String)
        ensures r@ == arn_text(aws_arn("lambda"@, self.region@, self.account_id@, "function:"@ + name@)),
    {
        self.regional_arn("lambda", concat2("function:", name))
    }

    pub fn cognito_pool_arn(&self, pool_id: &str) -> (r: String)
        ensures r@ == arn_text(aws_arn("cognito-idp"@, self.region@, self.account_id@, "userpool/"@ + pool_id@)),
    {
        self.regional_arn("cognito-idp", concat2("userpool/", pool_id))
    }

    pub fn secrets_arn(&self, name: &str) -> (r: String)
        ensures r@ == arn_text(aws_arn("secretsmanager"@, self.region@, self.account_id@, "secret:"@ + name@)),
    {
        self.regional_arn("secretsmanager", concat2("secret:", name))
    }

    pub fn emr_vc_arn(&self, vc_id: &str) -> (r: String)
        ensures r@ == arn_text(aws_arn("emr-containers"@, self.region@, self.account_id@, "/virtualclusters/"@ + vc_id@)),
    {
        self.regional_arn("emr-containers", concat2("/virtualclusters/", vc_id))
    }

    pub fn emr_job_arn(&self, vc_id: &str, jr_id: &str) -> (r: String)
        ensures r@ == arn_text(aws_arn("emr-containers"@, self.region@, self.account_id@,
            "/virtualclusters/"@ + vc_id@ + "/jobruns/"@ + jr_id@)),
    {
        let mut res = concat2("/virtualclusters/", vc_id);
        res.append("/jobruns/");
        res.append(jr_id);
        self.regional_arn("emr-containers", res)
    }

    pub fn emr_cluster_arn(&self, jf: &str) -> (r: String)
        ensures r@ == arn_text(aws_arn("emr"@, self.region@, self.account_id@, "cluster/"@ + jf@)),
    {
        self.regional_arn("emr", concat2("cluster/", jf))
    }

    /// Bucket ARNs name neither region nor account: `arn:aws:s3:::{bucket}`.
    pub fn s3_bucket_arn(&self, bucket: &str) -> (r: String)
        ensures r@ == arn_text(aws_arn("s3"@, ""@, ""@, bucket@)),
    {
        let mut r = owned("arn:");
        r.append(self.partition());
        r.append(":s3:::");
        r.append(bucket);
        proof {
            reveal_strlit(":s3:::");
            reveal_strlit(":");
            reveal_strlit("s3");
            reveal_strlit("");
        }
        assert(r@ =~= arn_text(aws_arn("s3"@, ""@, ""@, bucket@)));
        r
    }

    /// Role ARNs name no region: `arn:aws:iam::{account}:role/{name}`.
    pub fn iam_role_arn(&self, name: &str) -> (r: String)
        ensures r@ == arn_text(aws_arn("iam"@, ""@, self.account_id@, "role/"@ + name@)),
    {
        let mut r = owned("arn:");
        r.append(self.partition());
        r.append(":iam::");
        r.append(self.account_id.as_str());
        r.append(":role/");
        r.append(name);
        proof {
            reveal_strlit(":iam::");
            reveal_strlit(":role/");
            reveal_strlit("role/");
            reveal_strlit(":");
            reveal_strlit("iam");
            reveal_strlit("");
        }
        assert(r@ =~= arn_text(aws_arn("iam"@, ""@, self.account_id@, "role/"@ + name@)));
        r
    }
}

/// Every ARN that a configuration prints, where its region and account hold
/// no colon, reads back as an ARN of the `aws` partition with the service and
/// resource it was printed with.
pub proof fn lemma_printed_arns_read_back(service: Seq<char>, region: Seq<char>, account: Seq<char>, resource: Seq<char>)
    requires
        free_of(service, ':'),
        free_of(region, ':'),
        free_of(account, ':'),
    ensures
        arn_parse(arn_text(aws_arn(service, region, account, resource))) == Some(aws_arn(service, region, account, resource)),
{
    reveal_strlit("aws");
    let a = aws_arn(service, region, account, resource);
    assert(free_of("aws"@, ':'));
    assert(arn_fields_unambiguous(a));
    lemma_parse_after_print(a);
}

} // verus!
