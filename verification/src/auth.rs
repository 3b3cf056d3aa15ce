//! The caller's identity, read from the `Authorization` header of a signed request.
use vstd::prelude::*;
use crate::text::{split_all_exec, owned, chars_of, string_of_range, find, find_from, second_piece, split_all, lemma_find_from_some, lemma_find_shift, occurs_at};

verus! {

/// Access key, region, service and account of a request.
#[derive(Debug, Clone)]
pub struct AuthInfo {
    pub access_key: String,
    pub region: String,
    pub service: String,
    pub account_id: String,
}

/// The fields of an `AuthInfo` as character sequences.
pub struct AuthFields {
    pub access_key: Seq<char>,
    pub region: Seq<char>,
    pub service: Seq<char>,
    pub account_id: Seq<char>,
}

impl View for AuthInfo {
    type V = AuthFields;

    open spec fn view(&self) -> AuthFields {
        AuthFields {
            access_key: self.access_key@,
            region: self.region@,
            service: self.service@,
            account_id: self.account_id@,
        }
    }
}

/// The identity used where the header names none.
pub open spec fn default_auth() -> AuthFields {
    AuthFields {
        access_key: "000000000000"@,
        region: "us-east-1"@,
        service: "s3"@,
        account_id: "000000000000"@,
    }
}

/// The identity a header names: the credential after `Credential=` is
/// `{key}/{date}/{region}/{service}/...`; the key serves as the account too.
pub open spec fn auth_from_header(h: Seq<char>) -> AuthFields {
    match second_piece(h, "Credential="@) {
        Some(cred) => {
            let parts = split_all(cred, '/');
            if parts.len() >= 4 {
                AuthFields { access_key: parts[0], region: parts[2], service: parts[3], account_id: parts[0] }
            } else {
                default_auth()
            }
        },
        None => default_auth(),
    }
}

impl Default for AuthInfo {
    fn default() -> (a: AuthInfo)
        ensures a@ == default_auth(),
    {
        AuthInfo {
            access_key: owned("000000000000"),
            region: owned("us-east-1"),
            service: owned("s3"),
            account_id: owned("000000000000"),
        }
    }
}

/// Reads the caller's identity from the `Authorization` header (empty where
/// the request has none); falls back to the default identity.
pub fn extract_auth_info(auth_header: &str) -> (a: AuthInfo)
    ensures a@ == auth_from_header(auth_header@),
{
    let h = chars_of(auth_header);
    let pat = chars_of("Credential=");
    let first = find(&h, &pat, 0);
    proof {
        lemma_find_from_some(h@, pat@, 0);
    }
    let start = match first {
        Some(i) => {
            assert(occurs_at(h@, pat@, i as int));
            assert(i + pat@.len() <= h@.len());
            assert(i + pat.len() <= h.len());
            i + pat.len()
        },
        None => return AuthInfo::default(),
    };
    let ghost rest = h@.skip(start as int);
    proof {
        lemma_find_shift(h@, pat@, start as int, 0);
    }
    proof {
        lemma_find_from_some(h@, pat@, start as int);
    }
    let end = match find(&h, &pat, start) {
        Some(j) => j,
        None => h.len(),
    };
    let cred = string_of_range(&h, start, end);
    proof {
        match find_from(rest, pat@, 0) {
            Some(j) => { assert(cred@ =~= rest.take(j)); }
            None => { assert(cred@ =~= rest); }
        }
    }
    let parts = split_all_exec(cred.as_str(), '/');
    if parts.len() >= 4 {
        AuthInfo {
            access_key: parts[0].clone(),
            region: parts[2].clone(),
            service: parts[3].clone(),
            account_id: parts[0].clone(),
        }
    } else {
        AuthInfo::default()
    }
}

} // verus!
