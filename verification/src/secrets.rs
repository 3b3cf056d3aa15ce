//! Secrets Manager: secrets and their versions, and the checks its operations make.
use vstd::prelude::*;
use crate::text::{owned, concat2};
use crate::error::AwsemError;
use crate::targets::is_secrets_target;

verus! {

/// A secret as stored: the current value lives in its latest version.
pub struct Secret {
    pub id: String,
    pub name: String,
    pub arn: String,
    pub description: Option<String>,
    pub kms_key_id: Option<String>,
    pub tags_json: String,
    pub created_at: String,
    pub last_changed: String,
    pub deleted_at: Option<String>,
}

/// One value of a secret.
pub struct SecretVersion {
    pub version_id: String,
    pub value: String,
}

/// Routes requests whose target begins with `secretsmanager` to this service.
pub struct SecretsGuard;

impl SecretsGuard {
    pub fn check(&self, target: Option<&str>) -> (b: bool)
        ensures b == (match target { Some(t) => "secretsmanager"@.is_prefix_of(t@), None => false }),
    {
        is_secrets_target(target)
    }
}

/// The ARN of a secret of the default account: `arn:aws:secretsmanager:us-east-1:000000000000:secret:{name}`.
pub fn make_arn(name: &str) -> (r: String)
    ensures r@ == "arn:aws:secretsmanager:us-east-1:000000000000:secret:"@ + name@,
{
    concat2("arn:aws:secretsmanager:us-east-1:000000000000:secret:", name)
}

/// A secret is created only with a name.
pub fn require_name(name: &str) -> (r: Result<(), AwsemError>)
    ensures
        name@.len() == 0 ==> (r matches Err(AwsemError::InvalidRequest(m)) && m@ == "Name is required"@),
        name@.len() > 0 ==> r is Ok,
{
    if name.is_empty() {
        Err(AwsemError::InvalidRequest(owned("Name is required")))
    } else {
        Ok(())
    }
}

/// The value of a deleted secret cannot be read.
pub fn require_not_deleted(secret: &Secret) -> (r: Result<(), AwsemError>)
    ensures
        secret.deleted_at is Some ==> (r matches Err(AwsemError::NotFound(m)) && m@ == "Secret is deleted"@),
        secret.deleted_at is None ==> r is Ok,
{
    match secret.deleted_at {
        Some(_) => Err(AwsemError::NotFound(owned("Secret is deleted"))),
        None => Ok(()),
    }
}

/// The secret a `SecretId` names: the secret of that name, else the secret
/// of that ARN; a secret found by neither is answered as not found, with the
/// reason the second lookup gave.
pub fn resolve_secret(by_name: Result<Secret, String>, by_arn: Result<Secret, String>) -> (r: Result<Secret, AwsemError>)
    ensures
        match by_name {
            Ok(s) => r == Ok::<Secret, AwsemError>(s),
            Err(_) => match by_arn {
                Ok(s) => r == Ok::<Secret, AwsemError>(s),
                Err(e) => r matches Err(AwsemError::NotFound(m)) && m@ == e@,
            },
        },
{
    match by_name {
        Ok(s) => Ok(s),
        Err(_) => match by_arn {
            Ok(s) => Ok(s),
            Err(e) => Err(AwsemError::NotFound(e)),
        },
    }
}

/// The time an RFC 3339 text names, in milliseconds since the epoch, or
/// `None` where it is no RFC 3339 time.
pub uninterp spec fn rfc3339_millis(s: Seq<char>) -> Option<i64>;

/// Parses an RFC 3339 time (`chrono::DateTime::parse_from_rfc3339`, then
/// `timestamp_millis`).
#[verifier::external_body]
fn parse_rfc3339_millis(s: &str) -> (r: Option<i64>)
    ensures r == rfc3339_millis(s@),
{
    match chrono::DateTime::parse_from_rfc3339(s) {
        Ok(d) => Some(d.timestamp_millis()),
        Err(_) => None,
    }
}

/// The date of a stored time as the API reports it, in milliseconds; 0 for
/// a time that cannot be read.
pub fn to_date(s: &str) -> (r: i64)
    ensures r == (match rfc3339_millis(s@) {
        Some(m) => m,
        None => 0i64,
    }),
{
    match parse_rfc3339_millis(s) {
        Some(m) => m,
        None => 0,
    }
}


// ---------------------------------------------------------------------------
// Which version is read
// ---------------------------------------------------------------------------

/// One stored version of a secret, with the time it was stored (as text).
pub struct StoredVersion {
    pub version_id: String,
    pub value: String,
    pub created_at: String,
}

/// `a` sorts before `b` character by character, as SQLite compares text.
pub open spec fn text_lt(a: Seq<char>, b: Seq<char>) -> bool
    decreases a.len(),
{
    if a.len() == 0 {
        b.len() > 0
    } else if b.len() == 0 {
        false
    } else if a[0] != b[0] {
        a[0] < b[0]
    } else {
        text_lt(a.drop_first(), b.drop_first())
    }
}

/// No text sorts before itself.
pub proof fn lemma_text_lt_irreflexive(a: Seq<char>)
    ensures !text_lt(a, a),
    decreases a.len(),
{
    if a.len() > 0 {
        lemma_text_lt_irreflexive(a.drop_first());
    }
}

/// Of two texts, at most one sorts before the other.
pub proof fn lemma_text_lt_asymmetric(a: Seq<char>, b: Seq<char>)
    ensures !(text_lt(a, b) && text_lt(b, a)),
    decreases a.len(),
{
    if a.len() > 0 && b.len() > 0 && a[0] == b[0] {
        lemma_text_lt_asymmetric(a.drop_first(), b.drop_first());
    }
}

/// Sorting before is transitive.
pub proof fn lemma_text_lt_transitive(a: Seq<char>, b: Seq<char>, c: Seq<char>)
    requires text_lt(a, b), text_lt(b, c),
    ensures text_lt(a, c),
    decreases a.len(),
{
    if a.len() > 0 && b.len() > 0 && c.len() > 0 && a[0] == b[0] && b[0] == c[0] {
        lemma_text_lt_transitive(a.drop_first(), b.drop_first(), c.drop_first());
    }
}

/// Of two different texts, one sorts before the other.
pub proof fn lemma_text_lt_total(a: Seq<char>, b: Seq<char>)
    requires a != b,
    ensures text_lt(a, b) || text_lt(b, a),
    decreases a.len(),
{
    if a.len() > 0 && b.len() > 0 && a[0] == b[0] {
        if a.drop_first() == b.drop_first() {
            assert(a =~= seq![a[0]] + a.drop_first());
            assert(b =~= seq![b[0]] + b.drop_first());
        }
        lemma_text_lt_total(a.drop_first(), b.drop_first());
    } else if a.len() == 0 && b.len() == 0 {
        assert(a =~= b);
    }
}

/// Version `i` is one stored last: none was stored after it.
pub open spec fn is_latest(vs: Seq<StoredVersion>, i: int) -> bool {
    &&& 0 <= i < vs.len()
    &&& forall|j: int| 0 <= j < vs.len() ==> !text_lt(vs[i].created_at@, #[trigger] vs[j].created_at@)
}

fn text_less(a: &str, b: &str) -> (r: bool)
    ensures r == text_lt(a@, b@),
{
    let x = crate::text::chars_of(a);
    let y = crate::text::chars_of(b);
    let mut i: usize = 0;
    assert(x@.skip(0) =~= x@);
    assert(y@.skip(0) =~= y@);
    while i < x.len() && i < y.len() && x[i] == y[i]
        invariant
            x@ == a@,
            y@ == b@,
            0 <= i <= x.len(),
            i <= y.len(),
            text_lt(a@, b@) == text_lt(x@.skip(i as int), y@.skip(i as int)),
        decreases x.len() - i,
    {
        assert(x@.skip(i as int).drop_first() =~= x@.skip(i + 1));
        assert(y@.skip(i as int).drop_first() =~= y@.skip(i + 1));
        i += 1;
    }
    if i == x.len() {
        i < y.len()
    } else if i == y.len() {
        false
    } else {
        x[i] < y[i]
    }
}

/// The version a read gives: one stored last (the first such where several
/// were stored at the same time); none where the secret has no version.
pub fn latest_version(vs: &Vec<StoredVersion>) -> (r: Option<usize>)
    ensures
        r is None <==> vs@.len() == 0,
        r matches Some(i) ==> is_latest(vs@, i as int),
{
    if vs.len() == 0 {
        return None;
    }
    let mut best: usize = 0;
    let mut k: usize = 1;
    proof {
        lemma_text_lt_irreflexive(vs@[0].created_at@);
    }
    while k < vs.len()
        invariant
            0 < k <= vs.len(),
            best < k,
            forall|j: int| 0 <= j < k ==> !text_lt(vs@[best as int].created_at@, #[trigger] vs@[j].created_at@),
        decreases vs.len() - k,
    {
        if text_less(vs[best].created_at.as_str(), vs[k].created_at.as_str()) {
            let ghost old_best = best as int;
            proof {
                assert forall|j: int| 0 <= j < k + 1 implies !text_lt(vs@[k as int].created_at@, #[trigger] vs@[j].created_at@) by {
                    let tb = vs@[old_best].created_at@;
                    let tk = vs@[k as int].created_at@;
                    let tj = vs@[j].created_at@;
                    lemma_text_lt_irreflexive(tk);
                    if j < k && text_lt(tk, tj) {
                        lemma_text_lt_transitive(tb, tk, tj);
                    }
                }
            }
            best = k;
        } else {
            proof {
                lemma_text_lt_irreflexive(vs@[best as int].created_at@);
            }
        }
        k += 1;
    }
    Some(best)
}

/// A read gives back the last write: where a version was stored after every
/// other, it is the one read, and no other is.
pub proof fn lemma_read_after_write(vs: Seq<StoredVersion>, v: StoredVersion)
    requires forall|j: int| 0 <= j < vs.len() ==> text_lt(#[trigger] vs[j].created_at@, v.created_at@),
    ensures
        is_latest(vs.push(v), vs.len() as int),
        forall|i: int| #[trigger] is_latest(vs.push(v), i) ==> i == vs.len(),
{
    let all = vs.push(v);
    assert forall|j: int| 0 <= j < all.len() implies !text_lt(all[vs.len() as int].created_at@, #[trigger] all[j].created_at@) by {
        if j < vs.len() {
            assert(all[j] == vs[j]);
            lemma_text_lt_asymmetric(vs[j].created_at@, v.created_at@);
        } else {
            lemma_text_lt_irreflexive(v.created_at@);
        }
    }
    assert forall|i: int| #[trigger] is_latest(all, i) implies i == vs.len() by {
        if i < vs.len() {
            assert(all[i] == vs[i]);
            assert(all[vs.len() as int] == v);
            assert(!text_lt(all[i].created_at@, all[vs.len() as int].created_at@));
        }
    }
}
} // verus!
