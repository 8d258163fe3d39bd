//! The deep-link handler's decision.
//!
//! Given an incoming URL string, decide what the shell must do: ignore it,
//! reject a malformed token, navigate the embedded view to the auth callback
//! (with a fallback target should navigation fail), surface an error carried
//! by the link, or warn that the link had no token. The host glue performs
//! the chosen action; everything decided here is verified.

use vstd::prelude::*;
use crate::origin::{origin_allowed, validate_origin};
use crate::strutil::{push_char, str_eq};
use crate::token::{is_hex_digit, is_valid_token_format, token_ok};
use crate::urlparse::{first_value, parse_url, url_parse_of, UrlModel};

verus! {

/// A character the form-urlencoded byte serializer keeps unchanged:
/// ASCII alphanumerics and `*`, `-`, `.`, `_`.
pub open spec fn is_form_unchanged(c: char) -> bool {
    let u = c as u32;
    (48 <= u && u <= 57) || (65 <= u && u <= 90) || (97 <= u && u <= 122) || c == '*' || c == '-'
        || c == '.' || c == '_'
}

/// The uppercase hexadecimal digit for a value below 16.
pub open spec fn hex_upper(v: u32) -> char
    recommends
        v < 16,
{
    if v < 10 {
        ((48 + v) as u8) as char
    } else {
        ((55 + v) as u8) as char
    }
}

/// One character, form-urlencoded: kept, turned into `+` for a space, or
/// percent-encoded with two uppercase hex digits.
pub open spec fn form_encoded_char(c: char) -> Seq<char> {
    if is_form_unchanged(c) {
        seq![c]
    } else if c == ' ' {
        seq!['+']
    } else {
        seq!['%', hex_upper((c as u32) >> 4), hex_upper((c as u32) & 15)]
    }
}

/// An ASCII character sequence, form-urlencoded.
pub open spec fn form_encoded(s: Seq<char>) -> Seq<char>
    decreases s.len(),
{
    if s.len() == 0 {
        Seq::empty()
    } else {
        form_encoded_char(s[0]) + form_encoded(s.drop_first())
    }
}

/// Every character is ASCII, so that each is one byte of the encoding.
pub open spec fn ascii_only(s: Seq<char>) -> bool {
    forall|i: int| 0 <= i < s.len() ==> (#[trigger] s[i] as u32) < 128
}

proof fn lemma_form_encoded_push(s: Seq<char>, c: char)
    ensures
        form_encoded(s.push(c)) == form_encoded(s) + form_encoded_char(c),
    decreases s.len(),
{
    if s.len() == 0 {
        assert(s.push(c).drop_first() =~= Seq::<char>::empty());
        assert(s.push(c)[0] == c);
        assert(form_encoded(s.push(c)) == form_encoded_char(s.push(c)[0]) + form_encoded(
            s.push(c).drop_first(),
        ));
        assert(form_encoded(Seq::<char>::empty()) =~= Seq::<char>::empty());
        assert(form_encoded(s.push(c)) =~= form_encoded_char(c) + Seq::<char>::empty());
        assert(form_encoded_char(c) + Seq::<char>::empty() =~= form_encoded_char(c));
        assert(form_encoded(s) + form_encoded_char(c) =~= form_encoded_char(c));
    } else {
        lemma_form_encoded_push(s.drop_first(), c);
        assert(s.push(c).drop_first() =~= s.drop_first().push(c));
        assert((form_encoded_char(s[0]) + form_encoded(s.drop_first())) + form_encoded_char(c)
            =~= form_encoded_char(s[0]) + (form_encoded(s.drop_first()) + form_encoded_char(c)));
    }
}

/// Form-urlencodes an ASCII string as the urlencoded byte serializer does:
/// alphanumerics and `*-._` are kept, a space becomes `+`, and every other
/// character becomes `%` followed by two uppercase hex digits.
pub fn form_urlencode(s: &str) -> (r: String)
    requires
        ascii_only(s@),
    ensures
        r@ == form_encoded(s@),
{
    let n = s.unicode_len();
    let mut out = String::new();
    let mut i: usize = 0;
    while i < n
        invariant
            0 <= i <= n,
            n == s@.len(),
            ascii_only(s@),
            out@ == form_encoded(s@.take(i as int)),
        decreases n - i,
    {
        let c = s.get_char(i);
        let u = c as u32;
        proof {
            assert(s@.take(i + 1) =~= s@.take(i as int).push(s@[i as int]));
            lemma_form_encoded_push(s@.take(i as int), s@[i as int]);
        }
        let ghost before = out@;
        if (48 <= u && u <= 57) || (65 <= u && u <= 90) || (97 <= u && u <= 122) || c == '*' || c
            == '-' || c == '.' || c == '_' {
            push_char(&mut out, c);
        } else if c == ' ' {
            push_char(&mut out, '+');
        } else {
            let hi = u / 16;
            let lo = u % 16;
            let hc = if hi < 10 {
                ((48 + hi) as u8) as char
            } else {
                ((55 + hi) as u8) as char
            };
            let lc = if lo < 10 {
                ((48 + lo) as u8) as char
            } else {
                ((55 + lo) as u8) as char
            };
            push_char(&mut out, '%');
            push_char(&mut out, hc);
            push_char(&mut out, lc);
            proof {
                assert(u / 16 == u >> 4) by (bit_vector);
                assert(u % 16 == u & 15) by (bit_vector);
                assert(out@ =~= before + form_encoded_char(c));
            }
        }
        proof {
            assert(out@ =~= form_encoded(s@.take(i + 1)));
        }
        i += 1;
    }
    proof {
        assert(s@.take(n as int) =~= s@);
    }
    out
}

/// What the shell must do with an incoming URL.
pub enum DeepLinkAction {
    /// Not this application's auth deep link: do nothing.
    Ignore,
    /// The token failed the format check: log an error, never navigate.
    RejectedToken,
    /// Navigate the embedded view to `url`; should that fail, make one
    /// best-effort attempt on `fallback_url`, then give up. When
    /// `origin_fell_back` is set, the link's origin was missing or invalid
    /// and the production origin was used: surface a warning.
    Navigate { url: String, fallback_url: String, origin_fell_back: bool },
    /// The link carried an `error` parameter: log it as an error, stop.
    AuthError { message: String },
    /// An auth link with neither token nor error: log a warning, stop.
    MissingToken,
}

/// Mathematical model of [`DeepLinkAction`].
pub enum DeepLinkActionModel {
    Ignore,
    RejectedToken,
    Navigate { url: Seq<char>, fallback_url: Seq<char>, origin_fell_back: bool },
    AuthError { message: Seq<char> },
    MissingToken,
}

impl View for DeepLinkAction {
    type V = DeepLinkActionModel;

    open spec fn view(&self) -> DeepLinkActionModel {
        match *self {
            DeepLinkAction::Ignore => DeepLinkActionModel::Ignore,
            DeepLinkAction::RejectedToken => DeepLinkActionModel::RejectedToken,
            DeepLinkAction::Navigate { ref url, ref fallback_url, origin_fell_back } => {
                DeepLinkActionModel::Navigate {
                    url: url@,
                    fallback_url: fallback_url@,
                    origin_fell_back,
                }
            },
            DeepLinkAction::AuthError { ref message } => {
                DeepLinkActionModel::AuthError { message: message@ }
            },
            DeepLinkAction::MissingToken => DeepLinkActionModel::MissingToken,
        }
    }
}

/// The fixed production origin used when a link's origin is missing or
/// fails validation.
pub open spec fn production_origin() -> Seq<char> {
    "https://hackerai.co"@
}

/// An auth deep link: the host is `auth`, or the path is `/auth` or `auth`.
pub open spec fn is_auth_link(u: UrlModel) -> bool {
    u.host == Option::Some("auth"@) || u.path == "/auth"@ || u.path == "auth"@
}

/// The redirect origin the handler settles on, and whether it fell back to
/// the production origin because the link's origin was missing or invalid.
pub open spec fn chosen_origin(u: UrlModel, allowed: Seq<Seq<char>>) -> (Seq<char>, bool) {
    match first_value(u.query, "origin"@) {
        Option::Some(o) => if origin_allowed(url_parse_of(o), allowed) {
            (o, false)
        } else {
            (production_origin(), true)
        },
        Option::None => (production_origin(), true),
    }
}

/// The auth callback URL: `{origin}/desktop-callback?token={encoded token}`.
pub open spec fn callback_url_of(origin: Seq<char>, token: Seq<char>) -> Seq<char> {
    origin + "/desktop-callback?token="@ + form_encoded(token)
}

/// The best-effort fallback target: `{origin}/login?error=navigation_failed`.
pub open spec fn fallback_url_of(origin: Seq<char>) -> Seq<char> {
    origin + "/login?error=navigation_failed"@
}

/// The handler's whole decision on a link, over the parse of the link string.
pub open spec fn deep_link_decision(
    m: Option<UrlModel>,
    allowed: Seq<Seq<char>>,
) -> DeepLinkActionModel {
    match m {
        Option::None => DeepLinkActionModel::Ignore,
        Option::Some(u) => {
            if u.scheme != "hackerai"@ {
                DeepLinkActionModel::Ignore
            } else if !is_auth_link(u) {
                DeepLinkActionModel::Ignore
            } else {
                match first_value(u.query, "token"@) {
                    Option::Some(tok) => if !token_ok(tok) {
                        DeepLinkActionModel::RejectedToken
                    } else {
                        let (origin, fell_back) = chosen_origin(u, allowed);
                        DeepLinkActionModel::Navigate {
                            url: callback_url_of(origin, tok),
                            fallback_url: fallback_url_of(origin),
                            origin_fell_back: fell_back,
                        }
                    },
                    Option::None => match first_value(u.query, "error"@) {
                        Option::Some(e) => DeepLinkActionModel::AuthError { message: e },
                        Option::None => DeepLinkActionModel::MissingToken,
                    },
                }
            }
        },
    }
}

/// Decides what to do with an incoming URL: exactly the decision stated by
/// [`deep_link_decision`] on the parse of the link against the allow-list.
pub fn handle_auth_deep_link(link: &str, allowed_hosts: &Vec<String>) -> (r: DeepLinkAction)
    ensures
        r@ == deep_link_decision(url_parse_of(link@), allowed_hosts.deep_view()),
{
    let parts = match parse_url(link) {
        Some(p) => p,
        None => {
            return DeepLinkAction::Ignore;
        },
    };
    if !str_eq(parts.scheme.as_str(), "hackerai") {
        return DeepLinkAction::Ignore;
    }
    let host_is_auth = match &parts.host {
        Some(h) => str_eq(h.as_str(), "auth"),
        None => false,
    };
    if !(host_is_auth || str_eq(parts.path.as_str(), "/auth") || str_eq(
        parts.path.as_str(),
        "auth",
    )) {
        return DeepLinkAction::Ignore;
    }
    match parts.first_query_value("token") {
        Some(token) => {
            if !is_valid_token_format(token.as_str()) {
                return DeepLinkAction::RejectedToken;
            }
            let looked_up = parts.first_query_value("origin");
            let fell_back: bool;
            let origin: String = match looked_up {
                Some(o) => {
                    if validate_origin(o.as_str(), allowed_hosts) {
                        fell_back = false;
                        o
                    } else {
                        fell_back = true;
                        String::from_str("https://hackerai.co")
                    }
                },
                None => {
                    fell_back = true;
                    String::from_str("https://hackerai.co")
                },
            };
            proof {
                assert forall|i: int| 0 <= i < token@.len() implies (#[trigger] token@[i] as u32)
                    < 128 by {
                    assert(is_hex_digit(token@[i]));
                }
            }
            let encoded = form_urlencode(token.as_str());
            let mut url = origin.clone();
            url.append("/desktop-callback?token=");
            url.append(encoded.as_str());
            let mut fallback_url = origin;
            fallback_url.append("/login?error=navigation_failed");
            proof {
                let (origin_spec, fb_spec) = chosen_origin(
                    parts@,
                    allowed_hosts.deep_view(),
                );
                assert(url@ =~= callback_url_of(origin_spec, token@));
                assert(fallback_url@ =~= fallback_url_of(origin_spec));
            }
            DeepLinkAction::Navigate { url, fallback_url, origin_fell_back: fell_back }
        },
        None => {
            match parts.first_query_value("error") {
                Some(e) => DeepLinkAction::AuthError { message: e },
                None => DeepLinkAction::MissingToken,
            }
        },
    }
}

} // verus!
