//! The URI deflector: extracts an embedded web URL from a forced-browser
//! protocol URI, or rejects the URI.
//!
//! Rejection is a strict allow-list. Only a payload that parses as an
//! absolute `http` or `https` URL is ever returned; local paths, executable
//! names and every other scheme yield nothing, since the protocol handler
//! has historically been abused to launch arbitrary local programs.

use crate::text::{contains_char, has_prefix, str_eq, to_owned_string};
use vstd::prelude::*;
use vstd::seq_lib::*;

verus! {

/// The scheme that WHATWG URL parsing assigns to `s`, lower-cased, or
/// nothing when `s` does not parse as an absolute URL. The outcome is a
/// function of the characters of `s` alone.
pub uninterp spec fn parsed_scheme(s: Seq<char>) -> Option<Seq<char>>;

/// The percent-decoded key/value pairs of the query string of `s`, in
/// order, when `s` parses as an absolute URL; the empty sequence when it
/// does not parse or has no query. A function of the characters of `s`
/// alone.
pub uninterp spec fn parsed_query_pairs(s: Seq<char>) -> Seq<(Seq<char>, Seq<char>)>;

/// Relies on `url::Url::parse` and `url::Url::scheme`: parsing either
/// fails or yields a URL whose scheme accessor returns the lower-cased
/// scheme, both depending only on the input string.
#[verifier::external_body]
fn url_scheme_of(s: &str) -> (r: Option<String>)
    ensures
        r.deep_view() == parsed_scheme(s@),
{
    match url::Url::parse(s) {
        Ok(u) => Some(u.scheme().to_string()),
        Err(_) => None,
    }
}

/// Relies on `url::Url::parse` and `url::Url::query_pairs`: the query
/// string split on `&`, each pair split on `=` and percent-decoded, in
/// order, depending only on the input string.
#[verifier::external_body]
fn url_query_pairs_of(s: &str) -> (r: Vec<(String, String)>)
    ensures
        r.deep_view() == parsed_query_pairs(s@),
{
    match url::Url::parse(s) {
        Ok(u) => u.query_pairs().map(|(k, v)| (k.to_string(), v.to_string())).collect(),
        Err(_) => Vec::new(),
    }
}

/// A scheme outcome is acceptable exactly when it is `http` or `https`.
pub open spec fn is_web_scheme(o: Option<Seq<char>>) -> bool {
    o matches Some(sch) && (sch == "http"@ || sch == "https"@)
}

/// Whether `s` is a valid absolute web URL.
pub open spec fn spec_is_http_url(s: Seq<char>) -> bool {
    is_web_scheme(parsed_scheme(s))
}

/// Is this a valid web url?
pub fn is_http_url(url: &str) -> (r: bool)
    ensures
        r == spec_is_http_url(url@),
{
    match url_scheme_of(url) {
        Some(scheme) => {
            let http = str_eq(scheme.as_str(), "http");
            let https = str_eq(scheme.as_str(), "https");
            http || https
        },
        None => false,
    }
}

/// The value of the first query pair whose key is `url`, or the empty
/// string when there is none.
pub open spec fn first_url_value(pairs: Seq<(Seq<char>, Seq<char>)>) -> Seq<char>
    decreases pairs.len(),
{
    if pairs.len() == 0 {
        Seq::empty()
    } else if pairs[0].0 == "url"@ {
        pairs[0].1
    } else {
        first_url_value(pairs.skip(1))
    }
}

/// Picks the value of the first `url` query pair, or the empty string.
#[verifier::loop_isolation(false)]
fn first_url_pair(pairs: &Vec<(String, String)>) -> (r: String)
    ensures
        r@ == first_url_value(pairs.deep_view()),
{
    let ghost dv = pairs.deep_view();
    let n = pairs.len();
    proof {
        assert(dv.len() == n);
        assert(dv.skip(0) =~= dv);
    }
    let mut i: usize = 0;
    while i < n
        invariant
            i <= n,
            first_url_value(dv) == first_url_value(dv.skip(i as int)),
        decreases n - i,
    {
        proof {
            assert(dv[i as int] == (pairs@[i as int].0@, pairs@[i as int].1@));
            assert(dv.skip(i as int)[0] == dv[i as int]);
        }
        if str_eq(pairs[i].0.as_str(), "url") {
            return pairs[i].1.clone();
        }
        proof {
            assert(dv.skip(i as int).skip(1) =~= dv.skip(i as int + 1));
        }
        i = i + 1;
    }
    proof {
        assert(dv.skip(n as int) =~= Seq::<(Seq<char>, Seq<char>)>::empty());
    }
    String::new()
}

/// What the deflector yields for a URI: nothing unless the URI carries the
/// forced-browser scheme prefix, is free of spaces, and embeds — verbatim
/// after the prefix, or percent-encoded under the `url` query key — a
/// payload with an `http` or `https` scheme.
pub open spec fn deflected(s: Seq<char>) -> Option<Seq<char>> {
    if !"microsoft-edge:"@.is_prefix_of(s) || s.contains(' ') {
        None
    } else {
        let candidate = if "microsoft-edge:?"@.is_prefix_of(s) {
            first_url_value(parsed_query_pairs(s))
        } else {
            s.skip("microsoft-edge:"@.len() as int)
        };
        if spec_is_http_url(candidate) {
            Some(candidate)
        } else {
            None
        }
    }
}

/// Tries parsing a web url from the "microsoft-edge:" protocol.
///
/// Returns nothing for any string without the exact scheme prefix, and for
/// any string containing a space.
pub fn parse_ms_edge_url(url: &str) -> (r: Option<String>)
    ensures
        r.deep_view() == deflected(url@),
        !"microsoft-edge:"@.is_prefix_of(url@) ==> r is None,
        url@.contains(' ') ==> r is None,
{
    if !has_prefix(url, "microsoft-edge:") || contains_char(url, ' ') {
        return None;
    }
    let candidate: String;
    if has_prefix(url, "microsoft-edge:?") {
        let pairs = url_query_pairs_of(url);
        candidate = first_url_pair(&pairs);
    } else {
        let n = url.unicode_len();
        let plen = "microsoft-edge:".unicode_len();
        candidate = to_owned_string(url.substring_char(plen, n));
        proof {
            assert(url@.subrange(plen as int, n as int) =~= url@.skip(
                "microsoft-edge:"@.len() as int,
            ));
        }
    }
    if is_http_url(candidate.as_str()) {
        Some(candidate)
    } else {
        None
    }
}

} // verus!
