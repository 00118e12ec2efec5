//! Link discovery: domain filtering, fragment merging and deduplication of
//! the candidate URLs reported for the start page.

use vstd::prelude::*;
use vstd::set_lib::*;
use crate::error::CrawlError;
use crate::urls::parse_url;
use crate::urls::spec_same_domain;
use crate::urls::url_domain;
use crate::urls::url_parses;
use crate::urls::url_without_fragment;

verus! {

/// Whether `u` is the fragment-free form of one of the first `bound`
/// candidates that parses and shares the start URL's domain.
pub open spec fn discovered_by(
    base: Seq<char>,
    candidates: Seq<Seq<char>>,
    bound: int,
    u: Seq<char>,
) -> bool {
    exists|k: int|
        0 <= k < bound && spec_same_domain(base, candidates[k]) && u == url_without_fragment(
            candidates[k],
        )
}

/// The set of page URLs that discovery must return for a start URL and a
/// list of candidates: the fragment-free form of every candidate that parses
/// and shares the start URL's domain, each exactly once.
pub open spec fn spec_discovered(base: Seq<char>, candidates: Seq<Seq<char>>) -> Set<Seq<char>> {
    Set::new(|u: Seq<char>| discovered_by(base, candidates, candidates.len() as int, u))
}

fn contains_string(v: &Vec<String>, x: &String) -> (r: bool)
    ensures
        r == v.deep_view().contains(x@),
{
    let mut i: usize = 0;
    while i < v.len()
        invariant
            i <= v.len(),
            forall|j: int| 0 <= j < i ==> v.deep_view()[j] != x@,
        decreases v.len() - i,
    {
        if v[i] == *x {
            assert(v.deep_view()[i as int] == x@);
            return true;
        }
        i += 1;
    }
    assert(forall|j: int| 0 <= j < v.deep_view().len() ==> v.deep_view()[j] != x@);
    false
}

/// Filters the candidate URLs of the start page down to the set of pages to
/// crawl: every candidate of the start URL's domain, fragment stripped,
/// deduplicated by exact string equality; order not specified.
///
/// Fails with `MalformedUrl` exactly when the start URL does not parse, and
/// with `NoDomain` exactly when it parses but carries no domain; candidates
/// that fail to parse or sit on another domain are silently dropped.
pub fn discover_links(start_url: &str, candidates: &Vec<String>) -> (r: Result<
    Vec<String>,
    CrawlError,
>)
    ensures
        r is Ok <==> url_parses(start_url@) && url_domain(start_url@) is Some,
        r matches Ok(links) ==> {
            &&& links.deep_view().no_duplicates()
            &&& links.deep_view().to_set() == spec_discovered(
                start_url@,
                candidates.deep_view(),
            )
        },
        r matches Err(e) ==> e == (if url_parses(start_url@) {
            CrawlError::NoDomain
        } else {
            CrawlError::MalformedUrl
        }),
{
    let base_domain = match crate::urls::extract_domain(start_url) {
        Err(e) => { return Err(e) },
        Ok(d) => d,
    };
    let ghost b = start_url@;
    let ghost cs = candidates.deep_view();
    let mut out: Vec<String> = Vec::new();
    let mut i: usize = 0;
    while i < candidates.len()
        invariant
            i <= candidates.len(),
            cs == candidates.deep_view(),
            url_parses(b),
            url_domain(b) == Some(base_domain@),
            out.deep_view().no_duplicates(),
            forall|j: int|
                0 <= j < out.deep_view().len() ==> discovered_by(
                    b,
                    cs,
                    i as int,
                    #[trigger] out.deep_view()[j],
                ),
            forall|k: int|
                0 <= k < i && spec_same_domain(b, #[trigger] cs[k]) ==> out.deep_view().contains(
                    url_without_fragment(cs[k]),
                ),
        decreases candidates.len() - i,
    {
        let ghost old_out = out.deep_view();
        let ghost cand = cs[i as int];
        let ghost x = url_without_fragment(cand);
        let ghost mut pushed = false;
        match parse_url(candidates[i].as_str()) {
            Some(p) => {
                match p.domain {
                    Some(d) => {
                        if d == base_domain {
                            assert(spec_same_domain(b, cand));
                            if !contains_string(&out, &p.without_fragment) {
                                out.push(p.without_fragment);
                                proof {
                                    pushed = true;
                                    assert(out.deep_view() =~= old_out.push(x));
                                }
                            }
                        } else {
                            assert(!spec_same_domain(b, cand));
                        }
                    },
                    None => {
                        assert(!spec_same_domain(b, cand));
                    },
                }
            },
            None => {
                assert(!spec_same_domain(b, cand));
            },
        }
        i += 1;
        proof {
            let n = i as int;
            let now = out.deep_view();
            assert forall|j: int| 0 <= j < now.len() implies discovered_by(
                b,
                cs,
                n,
                #[trigger] now[j],
            ) by {
                if j < old_out.len() {
                    assert(discovered_by(b, cs, n - 1, old_out[j]));
                    let k = choose|k: int|
                        0 <= k < n - 1 && spec_same_domain(b, cs[k]) && old_out[j]
                            == url_without_fragment(cs[k]);
                    assert(spec_same_domain(b, cs[k]) && now[j] == url_without_fragment(cs[k]));
                } else {
                    assert(pushed && j == old_out.len());
                    assert(spec_same_domain(b, cs[n - 1]) && now[j] == url_without_fragment(
                        cs[n - 1],
                    ));
                }
            }
            assert forall|k: int| 0 <= k < n && spec_same_domain(b, #[trigger] cs[k]) implies now
                .contains(url_without_fragment(cs[k])) by {
                if k < n - 1 {
                    assert(old_out.contains(url_without_fragment(cs[k])));
                    let l = choose|l: int|
                        0 <= l < old_out.len() && old_out[l] == url_without_fragment(cs[k]);
                    assert(now[l] == url_without_fragment(cs[k]));
                } else {
                    if pushed {
                        assert(now[old_out.len() as int] == x);
                    } else {
                        assert(old_out.contains(x));
                        let l = choose|l: int| 0 <= l < old_out.len() && old_out[l] == x;
                        assert(now[l] == x);
                    }
                }
            }
        }
    }
    proof {
        let n = cs.len() as int;
        assert_sets_equal!(
            out.deep_view().to_set() == spec_discovered(b, cs),
            u => {
                if out.deep_view().to_set().contains(u) {
                    let j = choose|j: int|
                        0 <= j < out.deep_view().len() && out.deep_view()[j] == u;
                    assert(discovered_by(b, cs, n, out.deep_view()[j]));
                }
                if spec_discovered(b, cs).contains(u) {
                    let k = choose|k: int|
                        0 <= k < n && spec_same_domain(b, cs[k])
                            && u == url_without_fragment(cs[k]);
                    assert(out.deep_view().contains(u));
                }
            }
        );
    }
    Ok(out)
}

} // verus!
