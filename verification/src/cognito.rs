//! Cognito user pools: users, password checks and the claims of the tokens
//! a sign-in hands out.
use vstd::prelude::*;
use vstd::string::StringSliceAdditionalSpecFns;
use argon2::password_hash::{PasswordHasher, PasswordVerifier, PasswordHash, SaltString};
use crate::text::{owned, concat2};
use crate::error::AwsemError;
use crate::targets::is_cognito_target;
use crate::config::{is_uuid_text, new_uuid_text};

verus! {

/// A user pool.
pub struct UserPool {
    pub id: String,
    pub name: String,
    pub arn: String,
}

/// A user of a pool, with the PHC string of its password hash.
pub struct CognitoUser {
    pub id: String,
    pub pool_id: String,
    pub username: String,
    pub password_hash: String,
    pub email: Option<String>,
    pub attributes_json: String,
    pub status: String,
}

/// Routes requests whose target begins with `AWSCognitoIdentityProviderService` to this service.
pub struct CognitoGuard;

impl CognitoGuard {
    pub fn check(&self, target: Option<&str>) -> (b: bool)
        ensures b == (match target { Some(t) => "AWSCognitoIdentityProviderService"@.is_prefix_of(t@), None => false }),
    {
        is_cognito_target(target)
    }
}

/// The claims of a token.
pub struct Claims {
    pub sub: String,
    pub username: String,
    pub pool_id: String,
    pub token_use: String,
    pub iss: String,
    pub auth_time: usize,
    pub exp: usize,
    pub iat: usize,
}

/// How long each token lives, in seconds.
pub const ACCESS_TOKEN_LIFETIME: usize = 3600;
pub const ID_TOKEN_LIFETIME: usize = 86400;
pub const REFRESH_TOKEN_LIFETIME: usize = 2592000;

/// The issuer of the tokens of a pool.
pub open spec fn pool_issuer(pool_id: Seq<char>) -> Seq<char> {
    "https://cognito-idp.us-east-1.amazonaws.com/"@ + pool_id
}

/// The claims of one token issued at `now` to a user of `pool_id`.
pub fn token_claims(sub: &str, username: &str, pool_id: &str, token_use: &str, now: usize, lifetime: usize) -> (c: Claims)
    requires now + lifetime <= usize::MAX,
    ensures
        c.sub@ == sub@,
        c.username@ == username@,
        c.pool_id@ == pool_id@,
        c.token_use@ == token_use@,
        c.iss@ == pool_issuer(pool_id@),
        c.auth_time == now,
        c.iat == now,
        c.exp == now + lifetime,
{
    Claims {
        sub: owned(sub),
        username: owned(username),
        pool_id: owned(pool_id),
        token_use: owned(token_use),
        iss: concat2("https://cognito-idp.us-east-1.amazonaws.com/", pool_id),
        auth_time: now,
        exp: now + lifetime,
        iat: now,
    }
}

/// The claims of the access, id and refresh tokens of a sign-in at `now`:
/// they live an hour, a day and thirty days.
pub fn session_claims(sub: &str, username: &str, pool_id: &str, now: usize) -> (r: (Claims, Claims, Claims))
    requires now + REFRESH_TOKEN_LIFETIME <= usize::MAX,
    ensures
        r.0.token_use@ == "access"@ && r.0.exp == now + 3600,
        r.1.token_use@ == "id"@ && r.1.exp == now + 86400,
        r.2.token_use@ == "refresh"@ && r.2.exp == now + 2592000,
        r.0.sub@ == sub@ && r.1.sub@ == sub@ && r.2.sub@ == sub@,
        r.0.username@ == username@ && r.1.username@ == username@ && r.2.username@ == username@,
        r.0.pool_id@ == pool_id@ && r.1.pool_id@ == pool_id@ && r.2.pool_id@ == pool_id@,
        r.0.iss@ == pool_issuer(pool_id@) && r.1.iss@ == pool_issuer(pool_id@) && r.2.iss@ == pool_issuer(pool_id@),
        r.0.iat == now && r.1.iat == now && r.2.iat == now,
        r.0.auth_time == now && r.1.auth_time == now && r.2.auth_time == now,
{
    (
        token_claims(sub, username, pool_id, "access", now, ACCESS_TOKEN_LIFETIME),
        token_claims(sub, username, pool_id, "id", now, ID_TOKEN_LIFETIME),
        token_claims(sub, username, pool_id, "refresh", now, REFRESH_TOKEN_LIFETIME),
    )
}

/// Whether `password` matches the Argon2 hash in the PHC string `phc`, or
/// `None` where `phc` is no PHC string.
pub uninterp spec fn password_check(password: Seq<char>, phc: Seq<char>) -> Option<bool>;

/// A character of the standard Base64 alphabet (`A-Z`, `a-z`, `0-9`, `+`, `/`).
pub open spec fn is_b64_char(c: char) -> bool {
    ('A' <= c && c <= 'Z') || ('a' <= c && c <= 'z') || ('0' <= c && c <= '9') || c == '+' || c == '/'
}

/// The unpadded standard Base64 text of sixteen bytes: 22 characters of the
/// alphabet whose last one carries no bits beyond the sixteenth byte (its
/// value is a multiple of 16: `A`, `Q`, `g` or `w`).
pub open spec fn is_b64_salt(s: Seq<char>) -> bool {
    &&& s.len() == 22
    &&& forall|i: int| 0 <= i < 22 ==> is_b64_char(#[trigger] s[i])
    &&& (s[21] == 'A' || s[21] == 'Q' || s[21] == 'g' || s[21] == 'w')
}

/// A fresh random salt in the B64 form of the PHC string format
/// (`SaltString::generate` over the operating system's random source): the
/// unpadded Base64 text of sixteen random bytes. Which bytes is not stated:
/// they are random.
#[verifier::external_body]
fn random_salt() -> (r: String)
    ensures is_b64_salt(r@),
{
    SaltString::generate(&mut rand::rngs::OsRng).as_str().to_owned()
}

/// Hashes a password with Argon2 (default parameters) under `salt`
/// (`Argon2::hash_password`), giving its PHC string; a salt that is no B64
/// salt is refused (`SaltString::from_b64`). What is stated is that the
/// password checks against the hash, as the crate documents of a hash it made,
/// and that hashing succeeds under the Base64 text of sixteen bytes for a
/// password of at most `0xFFFFFFFF` bytes (`MAX_PWD_LEN`): with the default
/// parameters the crate refuses only longer passwords and salts that do not
/// decode to between 8 and 64 bytes.
#[verifier::external_body]
fn argon2_hash(password: &str, salt: &str) -> (r: Result<String, String>)
    ensures
        r matches Ok(h) ==> password_check(password@, h@) == Some(true),
        is_b64_salt(salt@) && password.spec_bytes().len() <= 0xFFFF_FFFF ==> r is Ok,
{
    match SaltString::from_b64(salt) {
        Ok(s) => match argon2::Argon2::default().hash_password(password.as_bytes(), &s) {
            Ok(h) => Ok(h.to_string()),
            Err(e) => Err(e.to_string()),
        },
        Err(e) => Err(e.to_string()),
    }
}

/// Checks a password against a stored PHC string (`PasswordHash::new`, then
/// `Argon2::verify_password`): `Err` where the string cannot be read.
#[verifier::external_body]
fn verify_phc(password: &str, phc: &str) -> (r: Result<bool, String>)
    ensures
        match r {
            Ok(b) => password_check(password@, phc@) == Some(b),
            Err(_) => password_check(password@, phc@) is None,
        },
{
    match PasswordHash::new(phc) {
        Ok(parsed) => Ok(argon2::Argon2::default().verify_password(password.as_bytes(), &parsed).is_ok()),
        Err(e) => Err(e.to_string()),
    }
}

/// The PHC string of a password hashed under a fresh random salt; the
/// password checks against it. Hashing fails only for a password longer than
/// `0xFFFFFFFF` bytes.
pub fn hash_password(password: &str) -> (r: Result<String, String>)
    ensures
        r matches Ok(h) ==> password_check(password@, h@) == Some(true),
        password.spec_bytes().len() <= 0xFFFF_FFFF ==> r is Ok,
{
    let salt = random_salt();
    argon2_hash(password, salt.as_str())
}

/// Checks a password against a stored PHC string: `Err` where the string
/// cannot be read.
pub fn check_password(password: &str, phc: &str) -> (r: Result<bool, String>)
    ensures
        match r {
            Ok(b) => password_check(password@, phc@) == Some(b),
            Err(_) => password_check(password@, phc@) is None,
        },
{
    verify_phc(password, phc)
}

/// A new user of `pool_id` whose password hash is taken from `password`,
/// with a fresh random id (`sub`), no email and no attributes (`{}`): what
/// signing up (status `UNCONFIRMED`) and an admin's creation (status
/// `CONFIRMED`) store. Hashing fails, as an internal error, only for a
/// password longer than `0xFFFFFFFF` bytes.
pub fn new_user(pool_id: &str, username: &str, password: &str, status: &str) -> (r: Result<CognitoUser, AwsemError>)
    ensures
        match r {
            Ok(u) => {
                &&& u.pool_id@ == pool_id@
                &&& u.username@ == username@
                &&& u.status@ == status@
                &&& u.email is None
                &&& u.attributes_json@ == "{}"@
                &&& is_uuid_text(u.id@)
                &&& password_check(password@, u.password_hash@) == Some(true)
            },
            Err(e) => e is Internal,
        },
        password.spec_bytes().len() <= 0xFFFF_FFFF ==> r is Ok,
{
    let hash = match hash_password(password) {
        Ok(h) => h,
        Err(e) => return Err(AwsemError::Internal(e)),
    };
    Ok(CognitoUser {
        id: new_uuid_text(),
        pool_id: owned(pool_id),
        username: owned(username),
        password_hash: hash,
        email: None,
        attributes_json: owned("{}"),
        status: owned(status),
    })
}

/// The answer to a sign-in given the password check: a stored hash that
/// cannot be read is an internal error, a wrong password is refused.
pub fn login_outcome(check: Result<bool, String>) -> (r: Result<(), AwsemError>)
    ensures
        match check {
            Ok(true) => r is Ok,
            Ok(false) => r matches Err(AwsemError::InvalidRequest(m)) && m@ == "Incorrect username or password"@,
            Err(e) => r matches Err(AwsemError::Internal(m)) && m@ == e@,
        },
{
    match check {
        Ok(true) => Ok(()),
        Ok(false) => Err(AwsemError::InvalidRequest(owned("Incorrect username or password"))),
        Err(e) => Err(AwsemError::Internal(e)),
    }
}

/// The spec of `login_outcome`: `None` where the sign-in is allowed.
pub open spec fn login_refusal(check: Option<bool>) -> bool {
    check != Some(true)
}

/// Checks a sign-in against the user's stored hash: a wrong password is
/// refused with `Incorrect username or password`, a stored hash that cannot be
/// read is an internal error.
pub fn sign_in(user: &CognitoUser, password: &str) -> (r: Result<(), AwsemError>)
    ensures
        r is Ok <==> password_check(password@, user.password_hash@) == Some(true),
        password_check(password@, user.password_hash@) == Some(false) ==>
            (r matches Err(AwsemError::InvalidRequest(m)) && m@ == "Incorrect username or password"@),
        password_check(password@, user.password_hash@) is None ==> (r matches Err(AwsemError::Internal(_))),
{
    login_outcome(check_password(password, user.password_hash.as_str()))
}

/// A user signed up with a password can sign in with that password: the
/// stored hash that signing up produced checks against it.
pub proof fn lemma_sign_up_then_sign_in(password: Seq<char>, stored: Seq<char>)
    requires password_check(password, stored) == Some(true),
    ensures !login_refusal(password_check(password, stored)),
{
}

/// The user pool an admin request names, or `us-east-1_default`.
pub fn admin_pool_id(pool_id: Option<&str>) -> (r: String)
    ensures r@ == (match pool_id { Some(p) => p@, None => "us-east-1_default"@ }),
{
    match pool_id {
        Some(p) => owned(p),
        None => owned("us-east-1_default"),
    }
}

/// The temporary password of a user an admin creates, or `Pass1234!`.
pub fn temporary_password(password: Option<&str>) -> (r: String)
    ensures r@ == (match password { Some(p) => p@, None => "Pass1234!"@ }),
{
    match password {
        Some(p) => owned(p),
        None => owned("Pass1234!"),
    }
}

/// The ARN of a pool an admin request creates: `arn:aws:cognito-idp:us-east-1:000000000000:userpool/{pool_id}`.
pub fn admin_pool_arn(pool_id: &str) -> (r: String)
    ensures r@ == "arn:aws:cognito-idp:us-east-1:000000000000:userpool/"@ + pool_id@,
{
    concat2("arn:aws:cognito-idp:us-east-1:000000000000:userpool/", pool_id)
}

} // verus!
