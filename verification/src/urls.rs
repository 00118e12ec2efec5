//! URL normalization: parsing, domain extraction, the same-domain predicate
//! and fragment stripping.
//!
//! Parsing itself is done by the url crate; its results are named by
//! uninterpreted functions of the input string, and everything built on top is
//! verified against those names.

use vstd::prelude::*;
use crate::error::CrawlError;

verus! {

/// Whether `url::Url::parse` accepts the string as an absolute URL.
pub uninterp spec fn url_parses(s: Seq<char>) -> bool;

/// The domain component of the parsed URL, `None` when the URL has a
/// non-domain host (such as an IP address) or no host at all.
pub uninterp spec fn url_domain(s: Seq<char>) -> Option<Seq<char>>;

/// The canonical serialization of the parsed URL after its fragment
/// component is removed, exactly as the url crate serializes that: removing
/// the fragment also drops trailing spaces from an opaque path.
pub uninterp spec fn url_without_fragment(s: Seq<char>) -> Seq<char>;

/// The result of parsing one URL string, reduced to the two components the
/// crawl reads: the domain, and the fragment-free canonical form.
pub struct UrlParts {
    /// The domain component, if the URL has one.
    pub domain: Option<String>,
    /// The canonical form of the URL without its fragment.
    pub without_fragment: String,
}

/// Relies on the url crate: `Url::parse`, `Url::domain`, `Url::set_fragment`
/// and `Url::as_str`. The parse outcome, the domain and the fragment-free
/// serialization are each a function of the input string alone.
#[verifier::external_body]
pub(crate) fn parse_url(s: &str) -> (r: Option<UrlParts>)
    ensures
        r is Some <==> url_parses(s@),
        r matches Some(p) ==> {
            &&& p.domain is Some <==> url_domain(s@) is Some
            &&& (p.domain matches Some(d) ==> url_domain(s@) == Some(d@))
            &&& p.without_fragment@ == url_without_fragment(s@)
        },
{
    match url::Url::parse(s) {
        Ok(mut u) => {
            let domain = match u.domain() {
                Some(d) => Some(d.to_string()),
                None => None,
            };
            u.set_fragment(None);
            Some(UrlParts { domain, without_fragment: u.as_str().to_string() })
        },
        Err(_) => None,
    }
}

/// Whether two URL strings both parse and carry the same domain, compared by
/// exact string equality.
pub open spec fn spec_same_domain(a: Seq<char>, b: Seq<char>) -> bool {
    &&& url_parses(a)
    &&& url_parses(b)
    &&& url_domain(a) is Some
    &&& url_domain(a) == url_domain(b)
}

/// Extracts the domain component of a URL string.
///
/// Fails with `MalformedUrl` exactly when the string does not parse, and with
/// `NoDomain` exactly when it parses but has no domain component.
pub fn extract_domain(u: &str) -> (r: Result<String, CrawlError>)
    ensures
        r is Ok <==> url_parses(u@) && url_domain(u@) is Some,
        r matches Ok(d) ==> url_domain(u@) == Some(d@),
        r matches Err(e) ==> e == (if url_parses(u@) {
            CrawlError::NoDomain
        } else {
            CrawlError::MalformedUrl
        }),
{
    match parse_url(u) {
        None => Err(CrawlError::MalformedUrl),
        Some(p) => match p.domain {
            None => Err(CrawlError::NoDomain),
            Some(d) => Ok(d),
        },
    }
}

/// Decides whether two URL strings belong to the same domain.
///
/// True exactly when both parse and their domain components are equal as
/// strings; false whenever either fails to parse or lacks a domain.
pub fn same_domain(a: &str, b: &str) -> (r: bool)
    ensures
        r == spec_same_domain(a@, b@),
{
    match (parse_url(a), parse_url(b)) {
        (Some(pa), Some(pb)) => match (pa.domain, pb.domain) {
            (Some(da), Some(db)) => da == db,
            _ => false,
        },
        _ => false,
    }
}

/// Produces the canonical form of a URL string with the fragment removed.
///
/// Fails with `MalformedUrl` exactly when the string does not parse.
pub fn strip_fragment(u: &str) -> (r: Result<String, CrawlError>)
    ensures
        r is Ok <==> url_parses(u@),
        r matches Ok(s) ==> s@ == url_without_fragment(u@),
        r matches Err(e) ==> e == CrawlError::MalformedUrl,
{
    match parse_url(u) {
        None => Err(CrawlError::MalformedUrl),
        Some(p) => Ok(p.without_fragment),
    }
}

} // verus!
