//! The choice of the best offer among the matches of one item.

use vstd::prelude::*;
use crate::median::{lemma_median_is_item, median, median_of};
use crate::model::{BestMatch, MatchStatus, SiteMatch};

verus! {

/// An offer that can be chosen: a price was found, and a link with it.
pub open spec fn is_valid_offer(m: SiteMatch) -> bool {
    m.status == MatchStatus::Found && m.price.is_some() && m.url.is_some()
}

/// The prices of the valid offers among `ms`, in the order of `ms`.
pub open spec fn valid_prices(ms: Seq<SiteMatch>) -> Seq<u64>
    decreases ms.len(),
{
    if ms.len() == 0 {
        Seq::empty()
    } else if is_valid_offer(ms.last()) {
        valid_prices(ms.drop_last()).push(ms.last().price.unwrap())
    } else {
        valid_prices(ms.drop_last())
    }
}

/// Whether `price` is at least four tenths of `median`.
pub open spec fn above_floor(price: u64, median: u64) -> bool {
    5 * price >= 2 * median
}

/// Whether the offers are trimmed: with three valid offers or more, those
/// far below the median price are left out.
pub open spec fn trims(ms: Seq<SiteMatch>) -> bool {
    valid_prices(ms).len() >= 3
}

/// Whether `ms[i]` is a valid offer that the trimming leaves in.
pub open spec fn is_candidate(ms: Seq<SiteMatch>, i: int) -> bool {
    &&& 0 <= i < ms.len()
    &&& is_valid_offer(ms[i])
    &&& trims(ms) ==> above_floor(ms[i].price.unwrap(), median_of(valid_prices(ms)))
}

/// Whether `ms[i]` is the first of the cheapest candidates.
pub open spec fn is_best(ms: Seq<SiteMatch>, i: int) -> bool {
    &&& is_candidate(ms, i)
    &&& forall|j: int| is_candidate(ms, j) ==> ms[i].price.unwrap() <= ms[j].price.unwrap()
    &&& forall|j: int| is_candidate(ms, j) && j < i ==> ms[i].price.unwrap() < ms[j].price.unwrap()
}

/// Every price among the valid prices belongs to a valid offer.
pub proof fn lemma_valid_price_has_offer(ms: Seq<SiteMatch>, p: u64)
    requires
        valid_prices(ms).contains(p),
    ensures
        exists|i: int| 0 <= i < ms.len() && is_valid_offer(#[trigger] ms[i]) && ms[i].price == Some(p),
    decreases ms.len(),
{
    if ms.len() > 0 {
        let rest = ms.drop_last();
        if is_valid_offer(ms.last()) && ms.last().price == Some(p) {
            assert(is_valid_offer(ms[ms.len() - 1]));
        } else {
            if is_valid_offer(ms.last()) {
                let vp = valid_prices(rest);
                let k = choose|k: int| 0 <= k < valid_prices(ms).len() && valid_prices(ms)[k] == p;
                assert(k < vp.len());
                assert(vp[k] == p);
            }
            assert(valid_prices(rest).contains(p));
            lemma_valid_price_has_offer(rest, p);
            let i = choose|i: int|
                0 <= i < rest.len() && is_valid_offer(#[trigger] rest[i]) && rest[i].price == Some(p);
            assert(ms[i] == rest[i]);
        }
    }
}

/// The price of every valid offer is among the valid prices.
pub proof fn lemma_offer_in_valid_prices(ms: Seq<SiteMatch>, i: int)
    requires
        0 <= i < ms.len(),
        is_valid_offer(ms[i]),
    ensures
        valid_prices(ms).contains(ms[i].price.unwrap()),
    decreases ms.len(),
{
    let rest = ms.drop_last();
    if i == ms.len() - 1 {
        assert(valid_prices(ms).last() == ms[i].price.unwrap());
    } else {
        lemma_offer_in_valid_prices(rest, i);
        let p = ms[i].price.unwrap();
        let k = choose|k: int| 0 <= k < valid_prices(rest).len() && valid_prices(rest)[k] == p;
        assert(valid_prices(ms)[k] == p);
    }
}

/// Where there is a valid offer, the trimming leaves one in: the offer at
/// the median price.
pub proof fn lemma_candidate_exists(ms: Seq<SiteMatch>)
    requires
        valid_prices(ms).len() > 0,
    ensures
        exists|i: int| is_candidate(ms, i),
{
    let vp = valid_prices(ms);
    lemma_median_is_item(vp);
    lemma_valid_price_has_offer(ms, median_of(vp));
    let i = choose|i: int|
        0 <= i < ms.len() && is_valid_offer(#[trigger] ms[i]) && ms[i].price == Some(median_of(vp));
    assert(is_candidate(ms, i));
}

/// The chosen offer costs at least four tenths of the median of the valid
/// prices, where there are three of them or more, and no candidate is cheaper.
pub proof fn lemma_best_respects_floor(ms: Seq<SiteMatch>, i: int)
    requires
        is_best(ms, i),
    ensures
        valid_prices(ms).len() >= 3 ==> 5 * ms[i].price.unwrap() >= 2 * median_of(valid_prices(ms)),
        forall|j: int|
            0 <= j < ms.len() && is_valid_offer(ms[j]) && ms[j].price.unwrap() < ms[i].price.unwrap()
                ==> trims(ms) && !above_floor(ms[j].price.unwrap(), median_of(valid_prices(ms))),
{
    assert forall|j: int|
        0 <= j < ms.len() && is_valid_offer(ms[j]) && ms[j].price.unwrap()
            < ms[i].price.unwrap() implies trims(ms) && !above_floor(
        ms[j].price.unwrap(),
        median_of(valid_prices(ms)),
    ) by {
        assert(!is_candidate(ms, j));
    }
}

fn collect_valid_prices(matches: &[SiteMatch]) -> (prices: Vec<u64>)
    ensures
        prices@ == valid_prices(matches@),
{
    let mut prices: Vec<u64> = Vec::new();
    let mut i: usize = 0;
    proof {
        assert(matches@.take(0) =~= Seq::<SiteMatch>::empty());
    }
    while i < matches.len()
        invariant
            0 <= i <= matches.len(),
            prices@ == valid_prices(matches@.take(i as int)),
        decreases matches.len() - i,
    {
        proof {
            assert(matches@.take(i + 1).drop_last() =~= matches@.take(i as int));
        }
        let m = &matches[i];
        if m.status == MatchStatus::Found && m.url.is_some() {
            if let Some(p) = m.price {
                prices.push(p);
            }
        }
        i += 1;
    }
    proof {
        assert(matches@.take(matches@.len() as int) =~= matches@);
    }
    prices
}

/// Picks the best offer among `matches`.
///
/// Only matches with a price and a link count. With three of them or more,
/// those priced under four tenths of the median are left out. Of the rest the
/// cheapest wins, the earliest of them where several cost the same. `None`
/// exactly where no match counts.
pub fn best_from_matches(matches: &[SiteMatch]) -> (best: Option<BestMatch>)
    ensures
        best.is_none() <==> (forall|i: int| 0 <= i < matches@.len() ==> !is_valid_offer(matches@[i])),
        best.is_some() ==> exists|i: int|
            {
                &&& is_best(matches@, i)
                &&& best.unwrap().site == matches@[i].site
                &&& best.unwrap().price == matches@[i].price.unwrap()
                &&& best.unwrap().url == matches@[i].url.unwrap()
            },
{
    let prices = collect_valid_prices(matches);
    if prices.len() == 0 {
        proof {
            assert forall|i: int| 0 <= i < matches@.len() implies !is_valid_offer(matches@[i]) by {
                if is_valid_offer(matches@[i]) {
                    lemma_offer_in_valid_prices(matches@, i);
                }
            }
        }
        return None;
    }
    let trimmed: bool = prices.len() >= 3;
    let mid: u64 = match median(&prices) {
        Some(m) => m,
        None => 0,
    };
    let mut chosen: Option<usize> = None;
    let mut i: usize = 0;
    while i < matches.len()
        invariant
            0 <= i <= matches.len(),
            prices@ == valid_prices(matches@),
            trimmed == trims(matches@),
            mid == median_of(valid_prices(matches@)),
            chosen.is_none() ==> forall|k: int| 0 <= k < i ==> !is_candidate(matches@, k),
            chosen.is_some() ==> {
                &&& chosen.unwrap() < i
                &&& is_candidate(matches@, chosen.unwrap() as int)
                &&& forall|k: int|
                    0 <= k < i && is_candidate(matches@, k) ==> matches@[chosen.unwrap() as int].price.unwrap()
                        <= matches@[k].price.unwrap()
                &&& forall|k: int|
                    0 <= k < chosen.unwrap() && is_candidate(matches@, k) ==> matches@[chosen.unwrap() as int].price.unwrap()
                        < matches@[k].price.unwrap()
            },
        decreases matches.len() - i,
    {
        let m = &matches[i];
        if m.status == MatchStatus::Found && m.url.is_some() {
            if let Some(p) = m.price {
                let keeps: bool = !trimmed || (p as u128) * 5 >= (mid as u128) * 2;
                if keeps {
                    let better: bool = match chosen {
                        None => true,
                        Some(c) => match matches[c].price {
                            Some(q) => p < q,
                            None => false,
                        },
                    };
                    if better {
                        chosen = Some(i);
                    }
                }
            }
        }
        i += 1;
    }
    proof {
        lemma_candidate_exists(matches@);
    }
    match chosen {
        Some(c) => {
            let m = &matches[c];
            match (&m.url, m.price) {
                (Some(u), Some(p)) => {
                    proof {
                        assert(is_best(matches@, c as int));
                        assert(is_valid_offer(matches@[c as int]));
                    }
                    Some(BestMatch { site: m.site.clone(), price: p, url: u.clone() })
                },
                _ => None,
            }
        },
        None => None,
    }
}

} // verus!
