//! Registry endpoint URLs, assembled from a base URL and request
//! parameters.

use vstd::prelude::*;
use vstd::string::*;
use crate::text::{dec_digits, u64_to_dec};

verus! {

/// What urlencoding makes of a text: every byte percent-encoded except
/// ASCII alphanumerics and `-`, `_`, `.`, `~`. Encoding depends on the
/// text alone.
pub uninterp spec fn url_encoded(s: Seq<char>) -> Seq<char>;

/// Relies on urlencoding::encode: percent-encodes a query component.
#[verifier::external_body]
fn url_encode(s: &str) -> (r: String)
    ensures
        r@ == url_encoded(s@),
{
    urlencoding::encode(s).into_owned()
}

/// The URL of a crate's information endpoint.
pub open spec fn spec_crate_url(base: Seq<char>, name: Seq<char>) -> Seq<char> {
    base + "/crates/"@ + name
}

/// Build the URL of a crate's information endpoint.
pub fn crate_url(base: &str, name: &str) -> (r: String)
    ensures
        r@ == spec_crate_url(base@, name@),
{
    let mut r = base.to_owned();
    r.append("/crates/");
    r.append(name);
    r
}

/// The URL of a crate's version-list endpoint.
pub open spec fn spec_versions_url(base: Seq<char>, name: Seq<char>) -> Seq<char> {
    base + "/crates/"@ + name + "/versions"@
}

/// Build the URL of a crate's version-list endpoint.
pub fn versions_url(base: &str, name: &str) -> (r: String)
    ensures
        r@ == spec_versions_url(base@, name@),
{
    let mut r = base.to_owned();
    r.append("/crates/");
    r.append(name);
    r.append("/versions");
    r
}

/// The URL of a crate version's dependency-list endpoint.
pub open spec fn spec_dependencies_url(
    base: Seq<char>,
    name: Seq<char>,
    version: Seq<char>,
) -> Seq<char> {
    base + "/crates/"@ + name + "/"@ + version + "/dependencies"@
}

/// Build the URL of a crate version's dependency-list endpoint.
pub fn dependencies_url(base: &str, name: &str, version: &str) -> (r: String)
    ensures
        r@ == spec_dependencies_url(base@, name@, version@),
{
    let mut r = base.to_owned();
    r.append("/crates/");
    r.append(name);
    r.append("/");
    r.append(version);
    r.append("/dependencies");
    r
}

/// The URL of the search endpoint: the query percent-encoded, and the
/// page size appended when a limit is given, capped at one hundred.
pub open spec fn spec_search_url(
    base: Seq<char>,
    query: Seq<char>,
    limit: Option<usize>,
) -> Seq<char> {
    base + "/crates?q="@ + url_encoded(query) + (match limit {
        Some(l) => "&per_page="@ + dec_digits((if l < 100 {
            l as nat
        } else {
            100nat
        })),
        None => Seq::empty(),
    })
}

/// Build the URL of the search endpoint.
pub fn search_url(base: &str, query: &str, limit: Option<usize>) -> (r: String)
    ensures
        r@ == spec_search_url(base@, query@, limit),
{
    let mut r = base.to_owned();
    r.append("/crates?q=");
    let encoded = url_encode(query);
    r.append(encoded.as_str());
    match limit {
        Some(l) => {
            r.append("&per_page=");
            let capped: u64 = if l < 100 {
                l as u64
            } else {
                100
            };
            let n = u64_to_dec(capped);
            r.append(n.as_str());
        },
        None => {},
    }
    r
}

} // verus!
