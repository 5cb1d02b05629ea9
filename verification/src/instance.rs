//! Credentials, the instance they point at, and the upstream endpoints.

use vstd::prelude::*;
use vstd::string::*;
use crate::text::{chars_of, contains, contains_chars, find_last, last_index, lemma_last_index, substring};

verus! {

/// What a client logs in with: an account handle and a bearer token.
#[derive(Debug)]
pub struct Cred {
    pub username: String,
    pub password: String,
}

/// The part of an account handle behind its last `@`; the whole handle
/// where it holds no `@`.
pub open spec fn domain_of(handle: Seq<char>) -> Seq<char> {
    handle.skip(last_index(handle, '@', handle.len() as int) + 1)
}

/// The instance's base URL: the domain, with `https://` put in front unless
/// the domain already holds it.
pub open spec fn base_url_of(domain: Seq<char>) -> Seq<char> {
    if contains(domain, "https://"@) {
        domain
    } else {
        "https://"@ + domain
    }
}

/// The received credential, with the configured account and token in place
/// of what the client sent, where they are configured.
pub open spec fn effective_cred_spec(
    received: (Seq<char>, Seq<char>),
    account: Option<Seq<char>>,
    token: Option<Seq<char>>,
) -> (Seq<char>, Seq<char>) {
    (
        match account {
            Some(a) => a,
            None => received.0,
        },
        match token {
            Some(t) => t,
            None => received.1,
        },
    )
}

/// Splits an account handle into the instance domain and its base URL.
pub fn strip_cred(username: &str) -> (r: (String, String))
    ensures
        r.0@ == domain_of(username@),
        r.1@ == base_url_of(domain_of(username@)),
{
    let v = chars_of(username);
    let start: usize = match find_last(&v, '@') {
        Some(i) => i + 1,
        None => 0,
    };
    proof {
        lemma_last_index(v@, '@', v.len() as int);
    }
    let domain = substring(&v, start, v.len());
    let d = chars_of(domain.as_str());
    let scheme = chars_of("https://");
    let url = if contains_chars(&d, &scheme) {
        domain.clone()
    } else {
        let mut u = "https://".to_owned();
        u.append(domain.as_str());
        u
    };
    (domain, url)
}

/// Applies the configured account and token over a received credential.
pub fn effective_cred(received: Cred, account: Option<&str>, token: Option<&str>) -> (c: Cred)
    ensures
        (c.username@, c.password@) == effective_cred_spec(
            (received.username@, received.password@),
            match account {
                Some(a) => Some(a@),
                None => None,
            },
            match token {
                Some(t) => Some(t@),
                None => None,
            },
        ),
{
    let username = match account {
        Some(a) => a.to_owned(),
        None => received.username,
    };
    let password = match token {
        Some(t) => t.to_owned(),
        None => received.password,
    };
    Cred { username, password }
}

/// A domain, as `domain_of` gives it, holds no `@`.
pub proof fn lemma_domain_has_no_at(handle: Seq<char>)
    ensures
        forall|i: int| 0 <= i < domain_of(handle).len() ==> domain_of(handle)[i] != '@',
{
    lemma_last_index(handle, '@', handle.len() as int);
}

/// Splitting a base URL again changes nothing: for every handle `h`, with
/// `u = base_url_of(domain_of(h))`, both the domain and the base URL of
/// `u` are `u` itself.
pub proof fn lemma_base_url_round_trips(handle: Seq<char>)
    ensures
        domain_of(base_url_of(domain_of(handle))) == base_url_of(domain_of(handle)),
        base_url_of(base_url_of(domain_of(handle))) == base_url_of(domain_of(handle)),
{
    let d = domain_of(handle);
    let u = base_url_of(d);
    let scheme = "https://"@;
    reveal_strlit("https://");
    lemma_domain_has_no_at(handle);
    assert forall|i: int| 0 <= i < u.len() implies u[i] != '@' by {
        if !contains(d, scheme) {
            if i >= scheme.len() {
                assert(u[i] == d[i - scheme.len()]);
            }
        }
    }
    lemma_last_index(u, '@', u.len() as int);
    assert(last_index(u, '@', u.len() as int) == -1);
    assert(u.skip(0) =~= u);
    if !contains(d, scheme) {
        assert(u.subrange(0, scheme.len() as int) =~= scheme);
        assert(crate::text::occurs_at(u, scheme, 0));
    }
}

/// `"Bearer "` followed by the token: the value of the `Authorization` header.
pub open spec fn bearer_spec(token: Seq<char>) -> Seq<char> {
    "Bearer "@ + token
}

/// The value of the `Authorization` header for a token.
pub fn bearer(token: &str) -> (r: String)
    ensures
        r@ == bearer_spec(token@),
{
    let mut r = "Bearer ".to_owned();
    r.append(token);
    r
}

/// The mail address of the logged-in account: `username@domain`.
pub open spec fn account_address_spec(username: Seq<char>, domain: Seq<char>) -> Seq<char> {
    username + "@"@ + domain
}

/// The mail address of the logged-in account.
pub fn account_address(username: &str, domain: &str) -> (r: String)
    ensures
        r@ == account_address_spec(username@, domain@),
{
    let mut r = username.to_owned();
    r.append("@");
    r.append(domain);
    r
}

/// Where the credential is verified: the base URL and the endpoint's path.
pub open spec fn verify_credentials_url_spec(base: Seq<char>) -> Seq<char> {
    base + "/api/v1/accounts/verify_credentials"@
}

/// Where the credential is verified.
pub fn verify_credentials_url(base: &str) -> (r: String)
    ensures
        r@ == verify_credentials_url_spec(base@),
{
    let mut r = base.to_owned();
    r.append("/api/v1/accounts/verify_credentials");
    r
}

/// The home timeline, 40 posts at most, and only those after `recent` where
/// a post was seen before.
pub open spec fn timeline_url_spec(base: Seq<char>, recent: Seq<char>) -> Seq<char> {
    if recent.len() == 0 {
        base + "/api/v1/timelines/home?limit=40"@
    } else {
        base + "/api/v1/timelines/home?limit=40"@ + "&since_id="@ + recent
    }
}

/// Where the home timeline is fetched.
pub fn timeline_url(base: &str, recent: &str) -> (r: String)
    ensures
        r@ == timeline_url_spec(base@, recent@),
{
    let mut r = base.to_owned();
    r.append("/api/v1/timelines/home?limit=40");
    if !recent.is_empty() {
        r.append("&since_id=");
        r.append(recent);
    }
    r
}

/// Where media is uploaded: the base URL and the endpoint's path.
pub open spec fn media_url_spec(base: Seq<char>) -> Seq<char> {
    base + "/api/v2/media"@
}

/// Where media is uploaded.
pub fn media_url(base: &str) -> (r: String)
    ensures
        r@ == media_url_spec(base@),
{
    let mut r = base.to_owned();
    r.append("/api/v2/media");
    r
}

/// Where a status is posted: the base URL and the endpoint's path.
pub open spec fn statuses_url_spec(base: Seq<char>) -> Seq<char> {
    base + "/api/v1/statuses"@
}

/// Where a status is posted.
pub fn statuses_url(base: &str) -> (r: String)
    ensures
        r@ == statuses_url_spec(base@),
{
    let mut r = base.to_owned();
    r.append("/api/v1/statuses");
    r
}

} // verus!
