//! Parsed URLs as plain values.
//!
//! URL parsing itself is delegated to the `url` crate; the components the
//! rest of the crate reads — scheme, host, path and the decoded query pairs —
//! are carried in [`UrlParts`], a type of this crate's own.

use vstd::prelude::*;

verus! {

/// The components of a parsed absolute URL, as plain values.
pub struct UrlParts {
    /// The URL's scheme, without the trailing `:`.
    pub scheme: String,
    /// The URL's host, where it has one.
    pub host: Option<String>,
    /// The URL's path.
    pub path: String,
    /// The decoded query pairs, in order, possibly with repeated keys.
    pub query: Vec<(String, String)>,
}

/// Mathematical model of [`UrlParts`].
pub struct UrlModel {
    pub scheme: Seq<char>,
    pub host: Option<Seq<char>>,
    pub path: Seq<char>,
    pub query: Seq<(Seq<char>, Seq<char>)>,
}

impl View for UrlParts {
    type V = UrlModel;

    open spec fn view(&self) -> UrlModel {
        UrlModel {
            scheme: self.scheme@,
            host: match self.host {
                Option::Some(h) => Option::Some(h@),
                Option::None => Option::None,
            },
            path: self.path@,
            query: self.query.deep_view(),
        }
    }
}

/// What `url::Url::parse` yields on a given string: `None` where the string
/// is not an absolute URL, otherwise the URL's components. A function of the
/// string alone.
pub uninterp spec fn url_parse_of(s: Seq<char>) -> Option<UrlModel>;

/// Relies on url::Url::parse and its accessors scheme, host_str, path and
/// query_pairs: whether a string parses, and each component of the result,
/// depend on the string alone.
#[verifier::external_body]
pub fn parse_url(s: &str) -> (r: Option<UrlParts>)
    ensures
        match (r, url_parse_of(s@)) {
            (Option::Some(p), Option::Some(m)) => p@ == m,
            (Option::None, Option::None) => true,
            _ => false,
        },
{
    match url::Url::parse(s) {
        Ok(u) => Some(UrlParts {
            scheme: u.scheme().to_string(),
            host: u.host_str().map(|h| h.to_string()),
            path: u.path().to_string(),
            query: u.query_pairs().map(|(k, v)| (k.to_string(), v.to_string())).collect(),
        }),
        Err(_) => None,
    }
}

/// The first query value under the given key, in pair order, starting at `i`.
pub open spec fn first_value_from(
    q: Seq<(Seq<char>, Seq<char>)>,
    k: Seq<char>,
    i: int,
) -> Option<Seq<char>>
    decreases q.len() - i,
{
    if i < 0 || i >= q.len() {
        Option::None
    } else if q[i].0 == k {
        Option::Some(q[i].1)
    } else {
        first_value_from(q, k, i + 1)
    }
}

/// The first query value under the given key, as the handler reads it: only
/// the first pair with a matching key counts.
pub open spec fn first_value(q: Seq<(Seq<char>, Seq<char>)>, k: Seq<char>) -> Option<Seq<char>> {
    first_value_from(q, k, 0)
}

impl UrlParts {
    /// The value of the first query pair whose key equals `key`, if any.
    pub fn first_query_value(&self, key: &str) -> (r: Option<String>)
        ensures
            match (r, first_value(self@.query, key@)) {
                (Option::Some(v), Option::Some(m)) => v@ == m,
                (Option::None, Option::None) => true,
                _ => false,
            },
    {
        let n = self.query.len();
        let mut i: usize = 0;
        while i < n
            invariant
                0 <= i <= n,
                n == self.query.len(),
                first_value(self@.query, key@) == first_value_from(self@.query, key@, i as int),
            decreases n - i,
        {
            let pair = &self.query[i];
            if crate::strutil::str_eq(pair.0.as_str(), key) {
                return Some(pair.1.clone());
            }
            i += 1;
        }
        None
    }
}

} // verus!
