//! The signed tokens of a sign-in: HS256 JSON Web Tokens of the claims,
//! signed with the emulator's secret, and their check.
use vstd::prelude::*;
use jsonwebtoken::{DecodingKey, EncodingKey, Header, Validation};
use serde_json::Value as JsonValue;
use crate::cognito::{Claims, session_claims, pool_issuer, REFRESH_TOKEN_LIFETIME};
use crate::text::owned;

verus! {

/// The claims as a token's payload holds them: five strings and three
/// whole numbers, each where the payload has it with that type.
pub open spec fn payload_of(c: Claims) -> (Option<Seq<char>>, Option<Seq<char>>, Option<Seq<char>>, Option<Seq<char>>,
    Option<Seq<char>>, Option<u64>, Option<u64>, Option<u64>) {
    (Some(c.sub@), Some(c.username@), Some(c.pool_id@), Some(c.token_use@), Some(c.iss@),
        Some(c.auth_time as u64), Some(c.exp as u64), Some(c.iat as u64))
}

/// The fields of some claims: five strings and three numbers.
pub open spec fn fields_of(c: Claims) -> (Seq<char>, Seq<char>, Seq<char>, Seq<char>, Seq<char>, nat, nat, nat) {
    (c.sub@, c.username@, c.pool_id@, c.token_use@, c.iss@, c.auth_time as nat, c.exp as nat, c.iat as nat)
}

/// The HS256 token (`jsonwebtoken::encode` with the default header) of a
/// payload object holding these claims, signed with `secret`.
pub uninterp spec fn hs256_token(sub: Seq<char>, username: Seq<char>, pool_id: Seq<char>, token_use: Seq<char>,
    iss: Seq<char>, auth_time: nat, exp: nat, iat: nat, secret: Seq<char>) -> Seq<char>;

/// What `jsonwebtoken::decode` (HS256, default validation without the expiry
/// check) reads from `token` under `secret`: for each claim, its value where
/// the payload holds it with the claim's type; `None` where the token is
/// refused (bad form, another algorithm, a signature that does not match, no
/// whole `exp`, an `aud` claim).
pub uninterp spec fn hs256_claims(token: Seq<char>, secret: Seq<char>) -> Option<(Option<Seq<char>>, Option<Seq<char>>,
    Option<Seq<char>>, Option<Seq<char>>, Option<Seq<char>>, Option<u64>, Option<u64>, Option<u64>)>;

/// Signs the claims as an HS256 token (`jsonwebtoken::encode` with the
/// default header and an HMAC key of the secret's bytes), the payload being
/// a JSON object of the eight claims. Encoding with an HMAC key cannot fail
/// (the key's family matches HS256, and an object with string keys always
/// serialises), and the token decodes back to the claims under the same
/// secret: its header names HS256, the signature is the HMAC of its text,
/// `exp` is a whole number and there is no `aud`. The payload's keys come in
/// sorted order; which order is not stated.
#[verifier::external_body]
fn sign_claims(c: &Claims, secret: &str) -> (r: Result<String, String>)
    ensures
        r is Ok,
        r matches Ok(t) ==> t@ == hs256_token(c.sub@, c.username@, c.pool_id@, c.token_use@, c.iss@, c.auth_time as nat, c.exp as nat, c.iat as nat, secret@),
        r matches Ok(t) ==> hs256_claims(t@, secret@) == Some(payload_of(*c)),
{
    let claims = std::collections::BTreeMap::from([
        ("sub", JsonValue::from(c.sub.as_str())), ("username", JsonValue::from(c.username.as_str())),
        ("pool_id", JsonValue::from(c.pool_id.as_str())), ("token_use", JsonValue::from(c.token_use.as_str())),
        ("iss", JsonValue::from(c.iss.as_str())), ("auth_time", JsonValue::from(c.auth_time)),
        ("exp", JsonValue::from(c.exp)), ("iat", JsonValue::from(c.iat)),
    ]);
    jsonwebtoken::encode(&Header::default(), &claims, &EncodingKey::from_secret(secret.as_bytes())).map_err(|e| e.to_string())
}

/// The claims a decoded payload holds, each where it has the claim's type.
pub struct TokenFields {
    pub sub: Option<String>,
    pub username: Option<String>,
    pub pool_id: Option<String>,
    pub token_use: Option<String>,
    pub iss: Option<String>,
    pub auth_time: Option<u64>,
    pub exp: Option<u64>,
    pub iat: Option<u64>,
}

pub open spec fn opt_str(o: Option<String>) -> Option<Seq<char>> {
    match o {
        Some(s) => Some(s@),
        None => None,
    }
}

pub open spec fn token_fields_view(f: TokenFields) -> (Option<Seq<char>>, Option<Seq<char>>, Option<Seq<char>>,
    Option<Seq<char>>, Option<Seq<char>>, Option<u64>, Option<u64>, Option<u64>) {
    (opt_str(f.sub), opt_str(f.username), opt_str(f.pool_id), opt_str(f.token_use), opt_str(f.iss),
        f.auth_time, f.exp, f.iat)
}

/// Decodes an HS256 token under `secret` (`jsonwebtoken::decode` into a JSON
/// value, default validation with the expiry check turned off) and picks the
/// eight claims out of its payload.
#[verifier::external_body]
fn decode_claims(token: &str, secret: &str) -> (r: Result<TokenFields, String>)
    ensures
        match r {
            Ok(f) => hs256_claims(token@, secret@) == Some(token_fields_view(f)),
            Err(_) => hs256_claims(token@, secret@) is None,
        },
{
    let mut v = Validation::default();
    v.validate_exp = false;
    match jsonwebtoken::decode::<JsonValue>(token, &DecodingKey::from_secret(secret.as_bytes()), &v) {
        Ok(d) => {
            let c = d.claims;
            let s = |k: &str| c[k].as_str().map(String::from);
            Ok(TokenFields { sub: s("sub"), username: s("username"), pool_id: s("pool_id"), token_use: s("token_use"),
                iss: s("iss"), auth_time: c["auth_time"].as_u64(), exp: c["exp"].as_u64(), iat: c["iat"].as_u64() })
        },
        Err(e) => Err(e.to_string()),
    }
}

/// The claims a token is accepted with at time `now` (seconds since the
/// epoch): it decodes under the secret, holds all eight claims with their
/// types, its times fit a `usize`, and it expired no more than 60 seconds
/// before `now` (the default leeway). `None` where it is refused.
pub open spec fn accepted_claims(token: Seq<char>, secret: Seq<char>, now: u64)
    -> Option<(Seq<char>, Seq<char>, Seq<char>, Seq<char>, Seq<char>, nat, nat, nat)> {
    match hs256_claims(token, secret) {
        Some((Some(s), Some(u), Some(p), Some(t), Some(i), Some(a), Some(e), Some(ia))) =>
            if a <= usize::MAX && e <= usize::MAX && ia <= usize::MAX && now <= e + 60 {
                Some((s, u, p, t, i, a as nat, e as nat, ia as nat))
            } else {
                None
            },
        _ => None,
    }
}

fn present(o: Option<String>, name: &str) -> (r: Result<String, String>)
    ensures
        match o {
            Some(s) => r == Ok::<String, String>(s),
            None => r is Err,
        },
{
    match o {
        Some(s) => Ok(s),
        None => {
            let mut m = owned("missing field `");
            m.append(name);
            m.append("`");
            Err(m)
        }
    }
}

fn time_of(o: Option<u64>, name: &str) -> (r: Result<usize, String>)
    ensures
        match o {
            Some(n) => if n <= usize::MAX { r == Ok::<usize, String>(n as usize) } else { r is Err },
            None => r is Err,
        },
{
    match o {
        Some(n) => if n <= usize::MAX as u64 {
            Ok(n as usize)
        } else {
            let mut m = owned("invalid value for `");
            m.append(name);
            m.append("`");
            Err(m)
        },
        None => {
            let mut m = owned("missing field `");
            m.append(name);
            m.append("`");
            Err(m)
        }
    }
}

/// Checks a token at time `now`: the claims it is accepted with, or the
/// reason it is refused.
pub fn verify_token(token: &str, secret: &str, now: u64) -> (r: Result<Claims, String>)
    ensures
        match accepted_claims(token@, secret@, now) {
            Some(c) => r matches Ok(x) && fields_of(x) == c,
            None => r is Err,
        },
{
    let f = match decode_claims(token, secret) {
        Ok(f) => f,
        Err(e) => return Err(e),
    };
    let sub = present(f.sub, "sub")?;
    let username = present(f.username, "username")?;
    let pool_id = present(f.pool_id, "pool_id")?;
    let token_use = present(f.token_use, "token_use")?;
    let iss = present(f.iss, "iss")?;
    let auth_time = time_of(f.auth_time, "auth_time")?;
    let exp = time_of(f.exp, "exp")?;
    let iat = time_of(f.iat, "iat")?;
    if (exp as u64) < now && now - (exp as u64) > 60 {
        return Err(owned("ExpiredSignature"));
    }
    Ok(Claims { sub, username, pool_id, token_use, iss, auth_time, exp, iat })
}

/// Signs the access, id and refresh tokens of a sign-in at `now` (seconds
/// since the epoch); each decodes back to its claims under the same secret.
pub fn create_tokens(sub: &str, username: &str, pool_id: &str, secret: &str, now: usize) -> (r: Result<(String, String, String), String>)
    requires now + REFRESH_TOKEN_LIFETIME <= usize::MAX,
    ensures
        r matches Ok(t) && {
            &&& t.0@ == hs256_token(sub@, username@, pool_id@, "access"@, pool_issuer(pool_id@),
                    now as nat, (now + 3600) as nat, now as nat, secret@)
            &&& t.1@ == hs256_token(sub@, username@, pool_id@, "id"@, pool_issuer(pool_id@),
                    now as nat, (now + 86400) as nat, now as nat, secret@)
            &&& t.2@ == hs256_token(sub@, username@, pool_id@, "refresh"@, pool_issuer(pool_id@),
                    now as nat, (now + 2592000) as nat, now as nat, secret@)
            &&& hs256_claims(t.0@, secret@) == Some(issued(sub@, username@, pool_id@, "access"@, now as nat, 3600))
            &&& hs256_claims(t.1@, secret@) == Some(issued(sub@, username@, pool_id@, "id"@, now as nat, 86400))
            &&& hs256_claims(t.2@, secret@) == Some(issued(sub@, username@, pool_id@, "refresh"@, now as nat, 2592000))
        },
{
    let (a, i, f) = session_claims(sub, username, pool_id, now);
    let ta = sign_claims(&a, secret)?;
    let ti = sign_claims(&i, secret)?;
    let tf = sign_claims(&f, secret)?;
    Ok((ta, ti, tf))
}

/// The payload of a token issued at `now` that lives `lifetime` seconds.
pub open spec fn issued(sub: Seq<char>, username: Seq<char>, pool_id: Seq<char>, token_use: Seq<char>, now: nat, lifetime: nat)
    -> (Option<Seq<char>>, Option<Seq<char>>, Option<Seq<char>>, Option<Seq<char>>, Option<Seq<char>>,
        Option<u64>, Option<u64>, Option<u64>) {
    (Some(sub), Some(username), Some(pool_id), Some(token_use), Some(pool_issuer(pool_id)),
        Some(now as u64), Some((now + lifetime) as u64), Some(now as u64))
}

/// A token issued at a sign-in is accepted, with the claims it was issued
/// with, until 60 seconds after it expires.
pub proof fn lemma_issued_token_accepted(token: Seq<char>, secret: Seq<char>, sub: Seq<char>, username: Seq<char>,
    pool_id: Seq<char>, token_use: Seq<char>, issued_at: nat, lifetime: nat, now: u64)
    requires
        issued_at + lifetime <= usize::MAX,
        hs256_claims(token, secret) == Some(issued(sub, username, pool_id, token_use, issued_at, lifetime)),
        now <= issued_at + lifetime + 60,
    ensures
        accepted_claims(token, secret, now)
            == Some((sub, username, pool_id, token_use, pool_issuer(pool_id), issued_at, issued_at + lifetime, issued_at)),
{
}

} // verus!
