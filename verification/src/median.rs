//! Ascending order and medians of price lists.

use vstd::prelude::*;
use vstd::relations::{sorted_by, total_ordering};
use vstd::seq_lib::lemma_sorted_unique;

verus! {

/// The order on prices, as a relation.
pub open spec fn price_leq() -> spec_fn(u64, u64) -> bool {
    |a: u64, b: u64| a <= b
}

/// The prices of `s` in ascending order.
pub open spec fn ascending(s: Seq<u64>) -> Seq<u64> {
    s.sort_by(price_leq())
}

/// The upper median of a non-empty list: the item in the middle of the
/// ascending order, the later of the two where the length is even.
pub open spec fn median_of(s: Seq<u64>) -> u64
    recommends
        s.len() > 0,
{
    ascending(s)[(s.len() / 2) as int]
}

/// `<=` on `u64` is a total order.
pub proof fn lemma_price_leq_total()
    ensures
        total_ordering(price_leq()),
{
}

/// The ascending order keeps every item and is sorted.
pub proof fn lemma_ascending(s: Seq<u64>)
    ensures
        ascending(s).len() == s.len(),
        ascending(s).to_multiset() == s.to_multiset(),
        sorted_by(ascending(s), price_leq()),
{
    broadcast use vstd::seq_lib::to_multiset_len;

    lemma_price_leq_total();
    s.lemma_sort_by_ensures(price_leq());
    assert(ascending(s).to_multiset().len() == ascending(s).len());
    assert(s.to_multiset().len() == s.len());
}

/// The median of a non-empty list is one of its items.
pub proof fn lemma_median_is_item(s: Seq<u64>)
    requires
        s.len() > 0,
    ensures
        s.contains(median_of(s)),
{
    broadcast use vstd::seq_lib::to_multiset_contains;

    lemma_ascending(s);
    let a = ascending(s);
    let k = (s.len() / 2) as int;
    assert(a.contains(a[k]));
    assert(a.to_multiset().contains(a[k]));
    assert(s.to_multiset().contains(a[k]));
}

/// Sorts a list of prices into ascending order.
pub fn sort_prices(v: &Vec<u64>) -> (out: Vec<u64>)
    ensures
        out@ == ascending(v@),
        out@.len() == v@.len(),
{
    let mut out: Vec<u64> = Vec::new();
    let mut i: usize = 0;
    proof {
        assert(v@.take(0) =~= Seq::<u64>::empty());
    }
    while i < v.len()
        invariant
            0 <= i <= v.len(),
            out@.len() == i,
            sorted_by(out@, price_leq()),
            out@.to_multiset() == v@.take(i as int).to_multiset(),
        decreases v.len() - i,
    {
        let x: u64 = v[i];
        let mut j: usize = 0;
        while j < out.len() && out[j] <= x
            invariant
                0 <= j <= out.len(),
                forall|k: int| 0 <= k < j ==> out@[k] <= x,
            decreases out.len() - j,
        {
            j += 1;
        }
        let ghost before = out@;
        out.insert(j, x);
        proof {
            broadcast use vstd::seq_lib::to_multiset_insert, vstd::seq_lib::to_multiset_build;

            assert(v@.take(i + 1) =~= v@.take(i as int).push(x));
            assert forall|a: int, b: int| 0 <= a < b < out@.len() implies (price_leq())(
                out@[a],
                out@[b],
            ) by {
                if a < j && b > j {
                    assert((price_leq())(before[a], before[b - 1]));
                } else if a > j {
                    assert((price_leq())(before[a - 1], before[b - 1]));
                } else if b < j {
                    assert((price_leq())(before[a], before[b]));
                } else if a == j {
                    assert((price_leq())(before[j as int], before[b - 1]));
                }
            }
        }
        i += 1;
    }
    proof {
        assert(v@.take(v@.len() as int) =~= v@);
        lemma_ascending(v@);
        lemma_price_leq_total();
        lemma_sorted_unique(out@, ascending(v@), price_leq());
    }
    out
}

/// The upper median of a list of prices; `None` for the empty list.
pub fn median(v: &Vec<u64>) -> (m: Option<u64>)
    ensures
        v@.len() == 0 ==> m.is_none(),
        v@.len() > 0 ==> m == Some(median_of(v@)),
{
    if v.len() == 0 {
        return None;
    }
    let sorted = sort_prices(v);
    proof {
        lemma_ascending(v@);
    }
    Some(sorted[sorted.len() / 2])
}

} // verus!
