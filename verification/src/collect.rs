//! Putting the matches of one item together: in the order of their sites,
//! with the best offer picked.

use vstd::prelude::*;
use vstd::relations::sorted_by;
use vstd::string::{StringExecFns, StringSliceAdditionalSpecFns};
use crate::model::{ItemResult, MatchStatus, SiteMatch, CURRENCY};
use crate::select::{best_from_matches, is_best, is_valid_offer};
use crate::text::{
    bytes_of, lemma_lex_le_total, lemma_lex_le_transitive, lex_le, text_le,
};

verus! {

/// How many scrapes run at a time.
pub const MAX_IN_FLIGHT: usize = 20;

/// The message of a match whose scrape could not get a permit.
pub const PERMITS_CLOSED: &'static str = "semaphore_closed";

/// One scrape to run: a site and the query to put to it.
#[derive(Clone, Debug)]
pub struct ScrapeTask {
    pub site: String,
    pub query: String,
}

/// The scrapes of one item: one for each entry of the plan, in its order; a
/// site named twice is scraped twice.
pub fn plan_item(site_plan: &Vec<String>, query: &str) -> (tasks: Vec<ScrapeTask>)
    ensures
        tasks@.len() == site_plan@.len(),
        forall|i: int|
            0 <= i < tasks@.len() ==> (#[trigger] tasks@[i]).site@ == site_plan@[i]@ && tasks@[i].query@
                == query@,
{
    let mut tasks: Vec<ScrapeTask> = Vec::new();
    let mut i: usize = 0;
    while i < site_plan.len()
        invariant
            0 <= i <= site_plan.len(),
            tasks@.len() == i,
            forall|k: int|
                0 <= k < i ==> (#[trigger] tasks@[k]).site@ == site_plan@[k]@ && tasks@[k].query@
                    == query@,
        decreases site_plan.len() - i,
    {
        tasks.push(ScrapeTask { site: site_plan[i].clone(), query: String::from_str(query) });
        i += 1;
    }
    tasks
}

/// The order of matches by the bytes of their sites.
pub open spec fn site_leq() -> spec_fn(SiteMatch, SiteMatch) -> bool {
    |a: SiteMatch, b: SiteMatch| lex_le(bytes_of(a.site@), bytes_of(b.site@))
}

/// Where `x` goes into `s`: behind every match that does not come after it.
pub open spec fn insertion_point(s: Seq<SiteMatch>, x: SiteMatch) -> int
    decreases s.len(),
{
    if s.len() == 0 || !(site_leq())(s[0], x) {
        0
    } else {
        1 + insertion_point(s.skip(1), x)
    }
}

/// The matches in ascending order of their sites; matches of one site keep
/// the order in which they came.
pub open spec fn in_site_order(ms: Seq<SiteMatch>) -> Seq<SiteMatch>
    decreases ms.len(),
{
    if ms.len() == 0 {
        ms
    } else {
        let rest = in_site_order(ms.drop_last());
        rest.insert(insertion_point(rest, ms.last()), ms.last())
    }
}

proof fn lemma_insertion_point(s: Seq<SiteMatch>, x: SiteMatch, k: int)
    requires
        0 <= k <= s.len(),
        forall|i: int| 0 <= i < k ==> (site_leq())(s[i], x),
        k == s.len() || !(site_leq())(s[k], x),
    ensures
        insertion_point(s, x) == k,
    decreases k,
{
    if k > 0 {
        let rest = s.skip(1);
        assert forall|i: int| 0 <= i < k - 1 implies (site_leq())(rest[i], x) by {
            assert(rest[i] == s[i + 1]);
        }
        lemma_insertion_point(rest, x, k - 1);
    }
}

/// The matches in ascending order of their sites.
pub fn sort_by_site(matches: &Vec<SiteMatch>) -> (out: Vec<SiteMatch>)
    ensures
        out@ == in_site_order(matches@),
        out@.len() == matches@.len(),
        out@.to_multiset() == matches@.to_multiset(),
        sorted_by(out@, site_leq()),
{
    let mut out: Vec<SiteMatch> = Vec::new();
    let mut i: usize = 0;
    proof {
        assert(matches@.take(0) =~= Seq::<SiteMatch>::empty());
    }
    while i < matches.len()
        invariant
            0 <= i <= matches.len(),
            out@.len() == i,
            sorted_by(out@, site_leq()),
            out@.to_multiset() == matches@.take(i as int).to_multiset(),
            out@ == in_site_order(matches@.take(i as int)),
        decreases matches.len() - i,
    {
        let x = matches[i].duplicate();
        let mut j: usize = 0;
        while j < out.len() && text_le(out[j].site.as_str(), x.site.as_str())
            invariant
                0 <= j <= out.len(),
                forall|k: int| 0 <= k < j ==> (site_leq())(out@[k], x),
            decreases out.len() - j,
        {
            j += 1;
        }
        let ghost before = out@;
        proof {
            lemma_insertion_point(before, x, j as int);
            assert(matches@.take(i + 1).drop_last() =~= matches@.take(i as int));
        }
        out.insert(j, x);
        proof {
            broadcast use vstd::seq_lib::to_multiset_insert, vstd::seq_lib::to_multiset_build;

            assert(matches@.take(i + 1) =~= matches@.take(i as int).push(x));
            assert forall|a: int, b: int| 0 <= a < b < out@.len() implies (site_leq())(
                out@[a],
                out@[b],
            ) by {
                if a < j && b > j {
                    assert((site_leq())(before[a], before[b - 1]));
                } else if a > j {
                    assert((site_leq())(before[a - 1], before[b - 1]));
                } else if b < j {
                    assert((site_leq())(before[a], before[b]));
                } else if a == j {
                    let first = before[j as int];
                    lemma_lex_le_total(bytes_of(first.site@), bytes_of(x.site@));
                    assert((site_leq())(x, first));
                    if b - 1 > j {
                        assert((site_leq())(first, before[b - 1]));
                        lemma_lex_le_transitive(
                            bytes_of(x.site@),
                            bytes_of(first.site@),
                            bytes_of(before[b - 1].site@),
                        );
                    }
                }
            }
        }
        i += 1;
    }
    proof {
        assert(matches@.take(matches@.len() as int) =~= matches@);
    }
    out
}

/// The result for one item once all its scrapes have ended, in whatever
/// order: the matches in ascending order of their sites, one for each
/// scrape, and the best offer among them.
pub fn assemble_item(query: String, matches: &Vec<SiteMatch>) -> (r: ItemResult)
    ensures
        r.query == query,
        r.matches@ == in_site_order(matches@),
        r.matches@.len() == matches@.len(),
        r.matches@.to_multiset() == matches@.to_multiset(),
        sorted_by(r.matches@, site_leq()),
        r.best.is_none() <==> (forall|i: int|
            0 <= i < r.matches@.len() ==> !is_valid_offer(r.matches@[i])),
        r.best.is_some() ==> exists|i: int|
            {
                &&& is_best(r.matches@, i)
                &&& r.best.unwrap().site == r.matches@[i].site
                &&& r.best.unwrap().price == r.matches@[i].price.unwrap()
                &&& r.best.unwrap().url == r.matches@[i].url.unwrap()
            },
{
    let sorted = sort_by_site(matches);
    let best = best_from_matches(sorted.as_slice());
    ItemResult { query, matches: sorted, best }
}

/// The result for one item of a stream, its matches in the order in which
/// they arrived.
pub fn assemble_streamed(query: String, matches: Vec<SiteMatch>) -> (r: ItemResult)
    ensures
        r.query == query,
        r.matches == matches,
        r.best.is_none() <==> (forall|i: int|
            0 <= i < matches@.len() ==> !is_valid_offer(matches@[i])),
        r.best.is_some() ==> exists|i: int|
            {
                &&& is_best(matches@, i)
                &&& r.best.unwrap().site == matches@[i].site
                &&& r.best.unwrap().price == matches@[i].price.unwrap()
                &&& r.best.unwrap().url == matches@[i].url.unwrap()
            },
{
    let best = best_from_matches(matches.as_slice());
    ItemResult { query, matches, best }
}

/// The match that stands for a scrape that could not get a permit.
pub fn semaphore_closed_match(site: &str, url: Option<String>) -> (m: SiteMatch)
    ensures
        m.site@ == site@,
        m.title.is_none(),
        m.price.is_none(),
        m.currency.is_some() && m.currency.unwrap()@ == CURRENCY@,
        m.url == url,
        m.status == MatchStatus::Error,
        m.message.is_some() && m.message.unwrap()@ == PERMITS_CLOSED@,
        m.latency_ms == Some(0u128),
{
    SiteMatch {
        site: String::from_str(site),
        title: None,
        price: None,
        currency: Some(String::from_str(CURRENCY)),
        url,
        status: MatchStatus::Error,
        message: Some(String::from_str(PERMITS_CLOSED)),
        latency_ms: Some(0),
    }
}

} // verus!
