//! Amazon Resource Names: parsing, printing and the builders the services use.
use vstd::prelude::*;
use crate::text::{splitn_char, free_of, join_char, splitn, owned, concat2, chars_of, lemma_splitn_one, lemma_splitn_cons, lemma_join_splitn,
    count_char, lemma_splitn_len_exact};

verus! {

/// An ARN split into its five fields:
/// `arn:{partition}:{service}:{region}:{account}:{resource}`.
#[derive(Debug, Clone)]
pub struct Arn {
    pub partition: String,
    pub service: String,
    pub region: String,
    pub account: String,
    pub resource: String,
}

/// The fields of an ARN as character sequences.
pub struct ArnFields {
    pub partition: Seq<char>,
    pub service: Seq<char>,
    pub region: Seq<char>,
    pub account: Seq<char>,
    pub resource: Seq<char>,
}

impl View for Arn {
    type V = ArnFields;

    open spec fn view(&self) -> ArnFields {
        ArnFields {
            partition: self.partition@,
            service: self.service@,
            region: self.region@,
            account: self.account@,
            resource: self.resource@,
        }
    }
}

/// The printed form of an ARN.
pub open spec fn arn_text(a: ArnFields) -> Seq<char> {
    "arn:"@ + a.partition + ":"@ + a.service + ":"@ + a.region + ":"@ + a.account + ":"@ + a.resource
}

/// The fields read from `s`, or `None` where `s` is no ARN: `s` must hold at
/// least five colons and start with `arn:`; the resource is everything after
/// the fifth colon.
pub open spec fn arn_parse(s: Seq<char>) -> Option<ArnFields> {
    let parts = splitn_char(s, 6, ':');
    if parts.len() == 6 && parts[0] == "arn"@ {
        Some(ArnFields {
            partition: parts[1],
            service: parts[2],
            region: parts[3],
            account: parts[4],
            resource: parts[5],
        })
    } else {
        None
    }
}

/// The fields before the resource hold no colon, so the printed form reads back.
pub open spec fn arn_fields_unambiguous(a: ArnFields) -> bool {
    &&& free_of(a.partition, ':')
    &&& free_of(a.service, ':')
    &&& free_of(a.region, ':')
    &&& free_of(a.account, ':')
}

impl Arn {
    /// Reads an ARN; fails with "Invalid ARN format" where `s` is none.
    pub fn parse(s: &str) -> (r: Result<Arn, String>)
        ensures
            match arn_parse(s@) {
                Some(a) => r matches Ok(arn) && arn@ == a,
                None => r matches Err(m) && m@ == "Invalid ARN format"@,
            },
    {
        let parts = splitn(s, 6, ':');
        proof {
            reveal_strlit("arn");
        }
        if parts.len() != 6 || !is_arn_prefix(&parts[0]) {
            return Err(owned("Invalid ARN format"));
        }
        assert(parts@[1]@ == splitn_char(s@, 6, ':')[1]);
        assert(parts@[2]@ == splitn_char(s@, 6, ':')[2]);
        assert(parts@[3]@ == splitn_char(s@, 6, ':')[3]);
        assert(parts@[4]@ == splitn_char(s@, 6, ':')[4]);
        assert(parts@[5]@ == splitn_char(s@, 6, ':')[5]);
        Ok(Arn {
            partition: parts[1].clone(),
            service: parts[2].clone(),
            region: parts[3].clone(),
            account: parts[4].clone(),
            resource: parts[5].clone(),
        })
    }

    /// The printed form `arn:{partition}:{service}:{region}:{account}:{resource}`.
    pub fn to_string(&self) -> (r: String)
        ensures r@ == arn_text(self@),
    {
        let mut r = owned("arn:");
        r.append(self.partition.as_str());
        r.append(":");
        r.append(self.service.as_str());
        r.append(":");
        r.append(self.region.as_str());
        r.append(":");
        r.append(self.account.as_str());
        r.append(":");
        r.append(self.resource.as_str());
        r
    }
}

fn is_arn_prefix(p: &String) -> (b: bool)
    ensures b == (p@ == "arn"@),
{
    proof {
        reveal_strlit("arn");
    }
    let cs = chars_of(p.as_str());
    let b = cs.len() == 3 && cs[0] == 'a' && cs[1] == 'r' && cs[2] == 'n';
    if b {
        assert(cs@ =~= "arn"@);
    }
    b
}

/// Printing an ARN whose leading fields hold no colon and reading it back
/// gives the same fields.
pub proof fn lemma_parse_after_print(a: ArnFields)
    requires arn_fields_unambiguous(a),
    ensures arn_parse(arn_text(a)) == Some(a),
{
    reveal_strlit("arn:");
    reveal_strlit(":");
    reveal_strlit("arn");
    let arn: Seq<char> = "arn"@;
    assert(free_of(arn, ':'));
    let colon: Seq<char> = ":"@;
    let t5 = a.resource;
    let t4 = a.account.push(':') + t5;
    let t3 = a.region.push(':') + t4;
    let t2 = a.service.push(':') + t3;
    let t1 = a.partition.push(':') + t2;
    let t0 = arn.push(':') + t1;
    assert(arn_text(a) =~= t0);
    lemma_splitn_one(t5, ':');
    lemma_splitn_cons(a.account, t5, 2, ':');
    lemma_splitn_cons(a.region, t4, 3, ':');
    lemma_splitn_cons(a.service, t3, 4, ':');
    lemma_splitn_cons(a.partition, t2, 5, ':');
    lemma_splitn_cons(arn, t1, 6, ':');
    let parts = splitn_char(t0, 6, ':');
    assert(parts =~= seq![arn, a.partition, a.service, a.region, a.account, t5]);
}

/// Reading an ARN and printing it gives back the text read.
pub proof fn lemma_print_after_parse(s: Seq<char>)
    requires arn_parse(s) is Some,
    ensures arn_text(arn_parse(s)->0) == s,
{
    reveal_strlit("arn:");
    reveal_strlit(":");
    reveal_strlit("arn");
    let parts = splitn_char(s, 6, ':');
    lemma_join_splitn(s, 6, ':');
    let p5 = parts;
    let p4 = p5.drop_last();
    let p3 = p4.drop_last();
    let p2 = p3.drop_last();
    let p1 = p2.drop_last();
    let p0 = p1.drop_last();
    assert(join_char(p0, ':') == parts[0]);
    assert(join_char(p1, ':') == parts[0].push(':') + parts[1]);
    assert(join_char(p2, ':') == join_char(p1, ':').push(':') + parts[2]);
    assert(join_char(p3, ':') == join_char(p2, ':').push(':') + parts[3]);
    assert(join_char(p4, ':') == join_char(p3, ':').push(':') + parts[4]);
    assert(join_char(p5, ':') == join_char(p4, ':').push(':') + parts[5]);
    assert(arn_text(arn_parse(s)->0) =~= join_char(p5, ':'));
}

/// Every text that starts with `arn:` and holds at least five colons is an
/// ARN: it parses, its fields are the six pieces of the text split at its
/// first five colons (the resource keeps every later colon), and printing
/// them gives back the text.
pub proof fn lemma_five_colons_parse(s: Seq<char>)
    requires
        "arn:"@.is_prefix_of(s),
        count_char(s, ':') >= 5,
    ensures
        arn_parse(s) is Some,
        arn_parse(s)->0 == (ArnFields {
            partition: splitn_char(s, 6, ':')[1],
            service: splitn_char(s, 6, ':')[2],
            region: splitn_char(s, 6, ':')[3],
            account: splitn_char(s, 6, ':')[4],
            resource: splitn_char(s, 6, ':')[5],
        }),
        arn_text(arn_parse(s)->0) == s,
{
    reveal_strlit("arn:");
    reveal_strlit("arn");
    let arn: Seq<char> = "arn"@;
    let rest = s.skip(4);
    assert(free_of(arn, ':'));
    assert(s.subrange(0, 4) == "arn:"@);
    assert(s[0] == 'a' && s[1] == 'r' && s[2] == 'n' && s[3] == ':') by {
        assert(s[0] == s.subrange(0, 4)[0]);
        assert(s[1] == s.subrange(0, 4)[1]);
        assert(s[2] == s.subrange(0, 4)[2]);
        assert(s[3] == s.subrange(0, 4)[3]);
    }
    assert(s =~= arn.push(':') + rest);
    lemma_splitn_cons(arn, rest, 6, ':');
    lemma_splitn_len_exact(s, 6, ':');
    assert(splitn_char(s, 6, ':')[0] == arn);
    lemma_print_after_parse(s);
}

/// The fields of an ARN in the `aws` partition.
pub open spec fn aws_arn(service: Seq<char>, region: Seq<char>, account: Seq<char>, resource: Seq<char>) -> ArnFields {
    ArnFields { partition: "aws"@, service, region, account, resource }
}

fn build(service: &str, region: &str, account: &str, resource: String) -> (a: Arn)
    ensures a@ == aws_arn(service@, region@, account@, resource@),
{
    Arn {
        partition: owned("aws"),
        service: owned(service),
        region: owned(region),
        account: owned(account),
        resource,
    }
}

/// The ARN of an S3 bucket: service `s3`, region `us-east-1`, resource `bucket/{name}`.
pub fn s3_bucket(account: &str, name: &str) -> (a: Arn)
    ensures a@ == aws_arn("s3"@, "us-east-1"@, account@, "bucket/"@ + name@),
{
    build("s3", "us-east-1", account, concat2("bucket/", name))
}

/// The ARN of a Cognito user pool: service `cognito-idp`, resource `userpool/{pool_id}`.
pub fn cognito_pool(account: &str, region: &str, pool_id: &str) -> (a: Arn)
    ensures a@ == aws_arn("cognito-idp"@, region@, account@, "userpool/"@ + pool_id@),
{
    build("cognito-idp", region, account, concat2("userpool/", pool_id))
}

/// The ARN of a secret: service `secretsmanager`, region `us-east-1`, resource `secret:{name}`.
pub fn secret(account: &str, name: &str) -> (a: Arn)
    ensures a@ == aws_arn("secretsmanager"@, "us-east-1"@, account@, "secret:"@ + name@),
{
    build("secretsmanager", "us-east-1", account, concat2("secret:", name))
}

/// The ARN of an EMR virtual cluster: service `emr-containers`, resource `/virtualclusters/{id}`.
pub fn emr_virtual_cluster(account: &str, id: &str) -> (a: Arn)
    ensures a@ == aws_arn("emr-containers"@, "us-east-1"@, account@, "/virtualclusters/"@ + id@),
{
    build("emr-containers", "us-east-1", account, concat2("/virtualclusters/", id))
}

/// The ARN of an EMR job run: resource `/virtualclusters/{vc_id}/jobruns/{jr_id}`.
pub fn emr_job_run(account: &str, vc_id: &str, jr_id: &str) -> (a: Arn)
    ensures a@ == aws_arn("emr-containers"@, "us-east-1"@, account@, "/virtualclusters/"@ + vc_id@ + "/jobruns/"@ + jr_id@),
{
    let mut res = concat2("/virtualclusters/", vc_id);
    res.append("/jobruns/");
    res.append(jr_id);
    build("emr-containers", "us-east-1", account, res)
}

/// The ARN of a Lambda function: service `lambda`, resource `function:{name}`.
pub fn lambda_fn(account: &str, name: &str) -> (a: Arn)
    ensures a@ == aws_arn("lambda"@, "us-east-1"@, account@, "function:"@ + name@),
{
    build("lambda", "us-east-1", account, concat2("function:", name))
}

} // verus!
