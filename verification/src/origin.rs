//! Origin validation for the auth redirect target.
//!
//! A deep link may name the origin the embedded view should be sent back to.
//! To prevent an attacker-controlled link from redirecting the authenticated
//! view to an arbitrary site, an origin is accepted only when it parses as an
//! absolute URL, its host is an exact member of the allow-list, and its
//! scheme is `https` — or `http` for the host `localhost` alone.

use vstd::prelude::*;
use crate::strutil::str_eq;
use crate::urlparse::{parse_url, url_parse_of, UrlModel, UrlParts};

verus! {

/// The host of a parsed URL, the empty string where it has none.
pub open spec fn host_of(u: UrlModel) -> Seq<char> {
    match u.host {
        Option::Some(h) => h,
        Option::None => Seq::empty(),
    }
}

/// Origin validation: the URL parses, its host is listed exactly in the
/// allow-list, and its scheme is https, or http for the host localhost.
pub open spec fn origin_allowed(m: Option<UrlModel>, allowed: Seq<Seq<char>>) -> bool {
    match m {
        Option::Some(u) => allowed.contains(host_of(u)) && (u.scheme == "https"@ || (host_of(u)
            == "localhost"@ && u.scheme == "http"@)),
        Option::None => false,
    }
}

/// Law: an origin whose host is not an exact member of the allow-list is
/// rejected whatever its scheme, and so is an origin that does not parse.
pub proof fn lemma_unlisted_host_rejected(m: Option<UrlModel>, allowed: Seq<Seq<char>>)
    requires
        m matches Option::Some(u) ==> !allowed.contains(host_of(u)),
    ensures
        !origin_allowed(m, allowed),
{
}

/// Checks already-parsed URL components against the allow-list: exact host
/// membership and the scheme constraint.
pub fn validate_origin_parts(parts: &UrlParts, allowed_hosts: &Vec<String>) -> (r: bool)
    ensures
        r == origin_allowed(Option::Some(parts@), allowed_hosts.deep_view()),
{
    let host: &str = match &parts.host {
        Some(h) => h.as_str(),
        None => "",
    };
    proof {
        reveal_strlit("");
        assert(host@ =~= host_of(parts@));
    }
    let n = allowed_hosts.len();
    let mut listed = false;
    let mut i: usize = 0;
    while i < n
        invariant
            0 <= i <= n,
            n == allowed_hosts.len(),
            host@ == host_of(parts@),
            listed == exists|j: int|
                0 <= j < i && allowed_hosts.deep_view()[j] == host_of(parts@),
        decreases n - i,
    {
        proof {
            assert(allowed_hosts.deep_view()[i as int] == allowed_hosts@[i as int]@);
        }
        if str_eq(host, allowed_hosts[i].as_str()) {
            listed = true;
        }
        i += 1;
    }
    proof {
        assert(listed == allowed_hosts.deep_view().contains(host_of(parts@)));
    }
    if !listed {
        return false;
    }
    if str_eq(parts.scheme.as_str(), "https") {
        return true;
    }
    str_eq(host, "localhost") && str_eq(parts.scheme.as_str(), "http")
}

/// Returns true exactly when the origin string parses as an absolute URL,
/// its host is an exact member of the allow-list, and its scheme is https —
/// or http, for the host localhost alone.
pub fn validate_origin(origin: &str, allowed_hosts: &Vec<String>) -> (r: bool)
    ensures
        r == origin_allowed(url_parse_of(origin@), allowed_hosts.deep_view()),
{
    match parse_url(origin) {
        Some(parts) => validate_origin_parts(&parts, allowed_hosts),
        None => false,
    }
}

} // verus!
