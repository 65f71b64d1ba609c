//! Reading a price out of a search page.
//!
//! Three readings are tried in turn: prices in embedded product data, the
//! storefront markup of the Amazon family, and dollar amounts anywhere in the
//! page. The patterns are matched by the `regex` crate; what is done with the
//! matches is decided here.

use vstd::prelude::*;
use vstd::slice::slice_subrange;
use vstd::string::StringSliceAdditionalSpecFns;
use crate::median::{lemma_median_is_item, median, median_of};
use crate::outside::{
    capture_view, captures_view, find_captures, lowercase, lowercase_text, pattern_matches, Capture,
    SpanView,
};
use crate::price::{
    capped, is_offer_price, is_vendor_price, parse_price, parse_price_bytes, price_cents,
    PRICE_MAX_CENTS, PRICE_MIN_CENTS, VENDOR_MIN_CENTS,
};
use crate::text::{
    bytes_of, char_offset, char_offset_of, chars_of, contains_chars, occurs_in, text_eq,
};

verus! {

/// A `"price"` member of embedded product data, with up to two decimals.
pub const JSON_LD_PATTERN: &'static str = "\"price\"\\s*:\\s*\"?(?P<p>[0-9]+(?:\\.[0-9]{1,2})?)\"?";

/// The whole-dollar part of a price in Amazon's markup.
pub const VENDOR_WHOLE_PATTERN: &'static str = "a-price-whole\">([0-9,]{1,12})<";

/// The cents part of a price in Amazon's markup.
pub const VENDOR_FRACTION_PATTERN: &'static str = "a-price-fraction\">([0-9]{2})<";

/// A dollar amount with optional thousands separators and cents.
pub const DOLLAR_PATTERN: &'static str = "\\$\\s?([0-9]{1,3}(?:,[0-9]{3})*(?:\\.[0-9]{2})?)";

/// How many matches of embedded product data are read.
pub const JSON_LD_LIMIT: usize = 80;

/// How many matches of storefront markup are read.
pub const VENDOR_LIMIT: usize = 20;

/// How many dollar amounts are read.
pub const DOLLAR_LIMIT: usize = 60;

/// How many characters on each side of a dollar amount are searched for context.
pub const CONTEXT_CHARS: usize = 24;

/// The amount that the first group of a match denotes.
pub open spec fn group_cents(c: SpanView) -> Option<u64> {
    match c.2 {
        Some(g) => capped(price_cents(bytes_of(g))),
        None => None,
    }
}

/// The first `limit` items of `s`, or all of them.
pub open spec fn first_items<A>(s: Seq<A>, limit: int) -> Seq<A> {
    if s.len() <= limit {
        s
    } else {
        s.take(limit)
    }
}

/// The amounts between `low` and the highest accepted price that the
/// matches denote, in the order of the matches.
pub open spec fn ranged_prices(caps: Seq<SpanView>, low: u64) -> Seq<u64>
    decreases caps.len(),
{
    if caps.len() == 0 {
        Seq::empty()
    } else {
        let rest = ranged_prices(caps.drop_last(), low);
        match group_cents(caps.last()) {
            Some(p) => if low <= p <= PRICE_MAX_CENTS {
                rest.push(p)
            } else {
                rest
            },
            None => rest,
        }
    }
}

/// The upper median of a list of prices, if it has any.
pub open spec fn median_or_none(s: Seq<u64>) -> Option<u64> {
    if s.len() == 0 {
        None
    } else {
        Some(median_of(s))
    }
}

/// Every price in `s` lies between `low` and `high`.
pub open spec fn all_within(s: Seq<u64>, low: u64, high: u64) -> bool {
    forall|i: int| 0 <= i < s.len() ==> low <= #[trigger] s[i] <= high
}

/// The median of prices within bounds lies within them.
pub proof fn lemma_median_within(s: Seq<u64>, low: u64, high: u64)
    requires
        all_within(s, low, high),
    ensures
        median_or_none(s).is_some() ==> low <= median_or_none(s).unwrap() <= high,
{
    if s.len() > 0 {
        lemma_median_is_item(s);
        let k = choose|k: int| 0 <= k < s.len() && s[k] == median_of(s);
        assert(low <= s[k] <= high);
    }
}

pub proof fn lemma_ranged_prices_within(caps: Seq<SpanView>, low: u64)
    ensures
        all_within(ranged_prices(caps, low), low, PRICE_MAX_CENTS),
    decreases caps.len(),
{
    if caps.len() > 0 {
        lemma_ranged_prices_within(caps.drop_last(), low);
    }
}

/// The price that embedded product data gives: the median of the accepted
/// amounts among the first matches.
pub open spec fn json_ld_price(caps: Seq<SpanView>) -> Option<u64> {
    median_or_none(ranged_prices(first_items(caps, JSON_LD_LIMIT as int), PRICE_MIN_CENTS))
}

/// The amount that a whole-dollar match and a cents match denote together.
pub open spec fn joined_cents(whole: SpanView, fraction: SpanView) -> Option<u64> {
    match (whole.2, fraction.2) {
        (Some(w), Some(f)) => capped(price_cents(bytes_of(w) + seq![0x2eu8] + bytes_of(f))),
        _ => None,
    }
}

/// The accepted amounts of the first `n` pairs of whole-dollar and cents matches.
pub open spec fn paired_prices(wholes: Seq<SpanView>, fractions: Seq<SpanView>, n: int) -> Seq<
    u64,
>
    recommends
        0 <= n <= wholes.len(),
        n <= fractions.len(),
    decreases n,
{
    if n <= 0 {
        Seq::empty()
    } else {
        let rest = paired_prices(wholes, fractions, n - 1);
        match joined_cents(wholes[n - 1], fractions[n - 1]) {
            Some(p) => if VENDOR_MIN_CENTS <= p <= PRICE_MAX_CENTS {
                rest.push(p)
            } else {
                rest
            },
            None => rest,
        }
    }
}

/// How many pairs of whole-dollar and cents matches are read.
pub open spec fn pair_count(wholes: Seq<SpanView>, fractions: Seq<SpanView>) -> int {
    let shorter = if wholes.len() <= fractions.len() {
        wholes.len() as int
    } else {
        fractions.len() as int
    };
    if shorter <= VENDOR_LIMIT {
        shorter
    } else {
        VENDOR_LIMIT as int
    }
}

/// The prices that Amazon's markup gives: whole-dollar amounts alone, then
/// whole-dollar amounts with the cents that stand at the same place in the page.
pub open spec fn vendor_candidates(wholes: Seq<SpanView>, fractions: Seq<SpanView>) -> Seq<u64> {
    ranged_prices(first_items(wholes, VENDOR_LIMIT as int), VENDOR_MIN_CENTS) + paired_prices(
        wholes,
        fractions,
        pair_count(wholes, fractions),
    )
}

pub open spec fn vendor_price(wholes: Seq<SpanView>, fractions: Seq<SpanView>) -> Option<u64> {
    median_or_none(vendor_candidates(wholes, fractions))
}

pub proof fn lemma_paired_prices_within(wholes: Seq<SpanView>, fractions: Seq<SpanView>, n: int)
    ensures
        all_within(paired_prices(wholes, fractions, n), VENDOR_MIN_CENTS, PRICE_MAX_CENTS),
    decreases n,
{
    if n > 0 {
        lemma_paired_prices_within(wholes, fractions, n - 1);
    }
}

fn group_price(c: &Capture) -> (r: Option<u64>)
    ensures
        r == group_cents(capture_view(*c)),
{
    match &c.group {
        Some(g) => parse_price(g.as_str()),
        None => None,
    }
}

fn collect_ranged(caps: &Vec<Capture>, limit: usize, low: u64) -> (out: Vec<u64>)
    ensures
        out@ == ranged_prices(first_items(captures_view(caps@), limit as int), low),
{
    let n: usize = if caps.len() <= limit {
        caps.len()
    } else {
        limit
    };
    let ghost all = captures_view(caps@);
    let mut out: Vec<u64> = Vec::new();
    let mut i: usize = 0;
    proof {
        assert(all.take(0) =~= Seq::<SpanView>::empty());
    }
    while i < n
        invariant
            0 <= i <= n <= caps@.len(),
            all == captures_view(caps@),
            out@ == ranged_prices(all.take(i as int), low),
        decreases n - i,
    {
        proof {
            assert(all.take(i + 1).drop_last() =~= all.take(i as int));
            assert(all.take(i + 1).last() == capture_view(caps@[i as int]));
        }
        if let Some(p) = group_price(&caps[i]) {
            if low <= p && p <= PRICE_MAX_CENTS {
                out.push(p);
            }
        }
        i += 1;
    }
    proof {
        assert(all.take(all.len() as int) =~= all);
    }
    out
}

/// The price that the given matches of embedded product data give.
pub fn json_ld_price_from(caps: &Vec<Capture>) -> (r: Option<u64>)
    ensures
        r == json_ld_price(captures_view(caps@)),
{
    let prices = collect_ranged(caps, JSON_LD_LIMIT, PRICE_MIN_CENTS);
    median(&prices)
}

/// The price that the embedded product data of `body` gives.
pub fn extract_price_from_json_ld(body: &str) -> (r: Option<u64>)
    ensures
        r == match pattern_matches(JSON_LD_PATTERN@, body@) {
            Some(caps) => json_ld_price(caps),
            None => None,
        },
{
    match find_captures(JSON_LD_PATTERN, body) {
        Some(caps) => json_ld_price_from(&caps),
        None => None,
    }
}

fn joined_price(whole: &Capture, fraction: &Capture) -> (r: Option<u64>)
    ensures
        r == joined_cents(capture_view(*whole), capture_view(*fraction)),
{
    match (&whole.group, &fraction.group) {
        (Some(w), Some(f)) => {
            let mut joined: Vec<u8> = Vec::new();
            joined.extend_from_slice(w.as_str().as_bytes());
            joined.push(0x2e);
            joined.extend_from_slice(f.as_str().as_bytes());
            proof {
                assert(joined@ =~= bytes_of(w@) + seq![0x2eu8] + bytes_of(f@));
            }
            parse_price_bytes(joined.as_slice())
        },
        _ => None,
    }
}

/// The price that the given matches of Amazon's markup give.
pub fn vendor_price_from(wholes: &Vec<Capture>, fractions: &Vec<Capture>) -> (r: Option<u64>)
    ensures
        r == vendor_price(captures_view(wholes@), captures_view(fractions@)),
{
    let mut prices = collect_ranged(wholes, VENDOR_LIMIT, VENDOR_MIN_CENTS);
    let shorter: usize = if wholes.len() <= fractions.len() {
        wholes.len()
    } else {
        fractions.len()
    };
    let n: usize = if shorter <= VENDOR_LIMIT {
        shorter
    } else {
        VENDOR_LIMIT
    };
    let ghost ws = captures_view(wholes@);
    let ghost fs = captures_view(fractions@);
    let ghost alone = prices@;
    let mut i: usize = 0;
    while i < n
        invariant
            0 <= i <= n,
            n <= wholes@.len(),
            n <= fractions@.len(),
            n == pair_count(ws, fs),
            ws == captures_view(wholes@),
            fs == captures_view(fractions@),
            alone == ranged_prices(first_items(ws, VENDOR_LIMIT as int), VENDOR_MIN_CENTS),
            prices@ == alone + paired_prices(ws, fs, i as int),
        decreases n - i,
    {
        let ghost before = paired_prices(ws, fs, i as int);
        if let Some(p) = joined_price(&wholes[i], &fractions[i]) {
            if is_vendor_price(p) {
                prices.push(p);
                proof {
                    assert(prices@ =~= alone + before.push(p));
                }
            }
        }
        i += 1;
    }
    median(&prices)
}

/// The price that Amazon's markup in `body` gives.
pub fn extract_amazon_price(body: &str) -> (r: Option<u64>)
    ensures
        r == match (
            pattern_matches(VENDOR_WHOLE_PATTERN@, body@),
            pattern_matches(VENDOR_FRACTION_PATTERN@, body@),
        ) {
            (Some(wholes), Some(fractions)) => vendor_price(wholes, fractions),
            _ => None,
        },
{
    let wholes = match find_captures(VENDOR_WHOLE_PATTERN, body) {
        Some(w) => w,
        None => {
            return None;
        },
    };
    match find_captures(VENDOR_FRACTION_PATTERN, body) {
        Some(fractions) => vendor_price_from(&wholes, &fractions),
        None => None,
    }
}

/// Below this price an amount near the word "shipping" is taken for a fee: 20.00.
pub const SHIPPING_CUTOFF_CENTS: u64 = 2000;

/// Below this price an amount written without cents is left out: 10.00.
pub const BARE_CUTOFF_CENTS: u64 = 1000;

/// The part of the lowercased page around a match: up to `CONTEXT_CHARS`
/// characters before its start and after its end. `lower` holds the
/// characters of the lowercased page; `start` and `end` are the places of the
/// match counted in characters. Empty where they lie beyond the lowercased page.
pub open spec fn context_window(lower: Seq<char>, start: int, end: int) -> Seq<char> {
    let to = if end + CONTEXT_CHARS <= lower.len() {
        end + CONTEXT_CHARS
    } else {
        lower.len() as int
    };
    let from = if start <= CONTEXT_CHARS {
        0
    } else {
        start - CONTEXT_CHARS
    };
    if from <= to {
        lower.subrange(from, to)
    } else {
        Seq::empty()
    }
}

/// Whether `phrase` stands in `window`.
pub open spec fn mentions(window: Seq<char>, phrase: Seq<char>) -> bool {
    occurs_in(window, phrase)
}

/// Whether the context speaks of a rate per month or week, not of a price.
pub open spec fn is_instalment(window: Seq<char>) -> bool {
    ||| mentions(window, "/mo"@)
    ||| mentions(window, "month"@)
    ||| mentions(window, "monthly"@)
    ||| mentions(window, "financing"@)
    ||| mentions(window, "per wk"@)
    ||| mentions(window, "weekly"@)
}

/// Whether the amount of a match is written with a decimal point.
pub open spec fn has_point(c: SpanView) -> bool {
    match c.2 {
        Some(g) => mentions(g, "."@),
        None => false,
    }
}

/// The price that one dollar amount stands for, if it counts: inside the
/// accepted range, no instalment, no shipping fee, and no bare amount under
/// ten. `body` holds the bytes of the page, in which the match has its
/// offsets; `lower` holds the characters of the lowercased page, in which its
/// context is read, at the same places counted in characters.
pub open spec fn dollar_price(c: SpanView, body: Seq<u8>, lower: Seq<char>) -> Option<u64> {
    let window = context_window(
        lower,
        char_offset(body, c.0) as int,
        char_offset(body, c.1) as int,
    );
    match group_cents(c) {
        Some(p) => if PRICE_MIN_CENTS <= p <= PRICE_MAX_CENTS && !is_instalment(window) && !(mentions(
            window,
            "shipping"@,
        ) && p < SHIPPING_CUTOFF_CENTS) && !(p < BARE_CUTOFF_CENTS && !has_point(c)) {
            Some(p)
        } else {
            None
        },
        None => None,
    }
}

/// The prices that the dollar amounts stand for, in the order of the matches.
pub open spec fn dollar_candidates(caps: Seq<SpanView>, body: Seq<u8>, lower: Seq<char>) -> Seq<u64>
    decreases caps.len(),
{
    if caps.len() == 0 {
        Seq::empty()
    } else {
        let rest = dollar_candidates(caps.drop_last(), body, lower);
        match dollar_price(caps.last(), body, lower) {
            Some(p) => rest.push(p),
            None => rest,
        }
    }
}

/// Whether `price` is at least 0.35 of `median`.
pub open spec fn clears_guess_floor(price: u64, median: u64) -> bool {
    20 * price >= 7 * median
}

/// Whether `g` is the lowest of the candidates that are not far below their median.
pub open spec fn is_best_guess(cands: Seq<u64>, g: u64) -> bool {
    &&& cands.contains(g)
    &&& clears_guess_floor(g, median_of(cands))
    &&& forall|i: int|
        0 <= i < cands.len() && clears_guess_floor(#[trigger] cands[i], median_of(cands)) ==> g
            <= cands[i]
}

/// The lowest of the candidates that are not far below their median; `None`
/// where there is no candidate.
pub open spec fn best_guess(cands: Seq<u64>) -> Option<u64> {
    if cands.len() == 0 {
        None
    } else {
        Some(choose|g: u64| is_best_guess(cands, g))
    }
}

/// A non-empty list of candidates has exactly one best guess.
pub proof fn lemma_best_guess(cands: Seq<u64>, g: u64)
    requires
        is_best_guess(cands, g),
    ensures
        best_guess(cands) == Some(g),
{
    let h = choose|h: u64| is_best_guess(cands, h);
    let i = choose|i: int| 0 <= i < cands.len() && cands[i] == g;
    let j = choose|j: int| 0 <= j < cands.len() && cands[j] == h;
    assert(h <= cands[i]);
    assert(g <= cands[j]);
}

/// Among the first `n` candidates, where one of them is not far below the
/// median, the lowest such exists.
proof fn lemma_lowest_near_median(cands: Seq<u64>, n: int) -> (g: u64)
    requires
        0 <= n <= cands.len(),
        exists|k: int| 0 <= k < n && clears_guess_floor(#[trigger] cands[k], median_of(cands)),
    ensures
        exists|k: int| 0 <= k < n && cands[k] == g,
        clears_guess_floor(g, median_of(cands)),
        forall|k: int|
            0 <= k < n && clears_guess_floor(#[trigger] cands[k], median_of(cands)) ==> g <= cands[k],
    decreases n,
{
    let m = median_of(cands);
    let last = cands[n - 1];
    if exists|k: int| 0 <= k < n - 1 && clears_guess_floor(#[trigger] cands[k], m) {
        let before = lemma_lowest_near_median(cands, n - 1);
        let kb = choose|k: int| 0 <= k < n - 1 && cands[k] == before;
        if clears_guess_floor(last, m) && last < before {
            assert(cands[n - 1] == last);
            last
        } else {
            assert(cands[kb] == before);
            before
        }
    } else {
        let k = choose|k: int| 0 <= k < n && clears_guess_floor(#[trigger] cands[k], m);
        assert(k == n - 1);
        last
    }
}

/// The best guess of a non-empty list is one of its candidates, and the
/// lowest of those that are at least 0.35 of the median.
pub proof fn lemma_best_guess_exists(cands: Seq<u64>)
    requires
        cands.len() > 0,
    ensures
        best_guess(cands).is_some(),
        is_best_guess(cands, best_guess(cands).unwrap()),
{
    lemma_median_is_item(cands);
    let k = choose|k: int| 0 <= k < cands.len() && cands[k] == median_of(cands);
    assert(clears_guess_floor(cands[k], median_of(cands)));
    let g = lemma_lowest_near_median(cands, cands.len() as int);
    let kg = choose|k: int| 0 <= k < cands.len() && cands[k] == g;
    assert(cands[kg] == g);
    assert(is_best_guess(cands, g));
}

pub proof fn lemma_dollar_candidates_within(caps: Seq<SpanView>, body: Seq<u8>, lower: Seq<char>)
    ensures
        all_within(dollar_candidates(caps, body, lower), PRICE_MIN_CENTS, PRICE_MAX_CENTS),
    decreases caps.len(),
{
    if caps.len() > 0 {
        lemma_dollar_candidates_within(caps.drop_last(), body, lower);
    }
}

fn mentions_phrase(window: &[char], phrase: &str) -> (r: bool)
    ensures
        r == mentions(window@, phrase@),
{
    let wanted = chars_of(phrase);
    contains_chars(window, wanted.as_slice())
}

fn window_of<'a>(lower: &'a [char], start: usize, end: usize) -> (w: &'a [char])
    ensures
        w@ == context_window(lower@, start as int, end as int),
{
    let n: usize = lower.len();
    let to: usize = if end <= n && n - end >= CONTEXT_CHARS {
        end + CONTEXT_CHARS
    } else {
        n
    };
    let from: usize = if start <= CONTEXT_CHARS {
        0
    } else {
        start - CONTEXT_CHARS
    };
    if from <= to {
        slice_subrange(lower, from, to)
    } else {
        slice_subrange(lower, 0, 0)
    }
}

fn dollar_price_of(c: &Capture, body: &[u8], lower: &[char]) -> (r: Option<u64>)
    ensures
        r == dollar_price(capture_view(*c), body@, lower@),
{
    let p: u64 = match group_price(c) {
        Some(p) => p,
        None => {
            return None;
        },
    };
    if !is_offer_price(p) {
        return None;
    }
    let window = window_of(lower, char_offset_of(body, c.start), char_offset_of(body, c.end));
    if mentions_phrase(window, "/mo") || mentions_phrase(window, "month") || mentions_phrase(
        window,
        "monthly",
    ) || mentions_phrase(window, "financing") || mentions_phrase(window, "per wk")
        || mentions_phrase(window, "weekly") {
        return None;
    }
    if p < SHIPPING_CUTOFF_CENTS && mentions_phrase(window, "shipping") {
        return None;
    }
    if p < BARE_CUTOFF_CENTS {
        let pointed: bool = match &c.group {
            Some(g) => {
                let digits = chars_of(g.as_str());
                mentions_phrase(digits.as_slice(), ".")
            },
            None => false,
        };
        if !pointed {
            return None;
        }
    }
    Some(p)
}

/// The lowest of `cands` that is at least 0.35 of their median.
pub fn best_guess_of(cands: &Vec<u64>) -> (r: Option<u64>)
    ensures
        r == best_guess(cands@),
        r.is_some() ==> cands@.contains(r.unwrap()),
{
    let mid: u64 = match median(cands) {
        Some(m) => m,
        None => {
            return None;
        },
    };
    let mut found: Option<u64> = None;
    let mut i: usize = 0;
    while i < cands.len()
        invariant
            0 <= i <= cands.len(),
            mid == median_of(cands@),
            found.is_none() ==> forall|k: int| 0 <= k < i ==> !clears_guess_floor(#[trigger] cands@[k], mid),
            found.is_some() ==> {
                &&& cands@.contains(found.unwrap())
                &&& clears_guess_floor(found.unwrap(), mid)
                &&& forall|k: int|
                    0 <= k < i && clears_guess_floor(#[trigger] cands@[k], mid) ==> found.unwrap()
                        <= cands@[k]
            },
        decreases cands.len() - i,
    {
        let p: u64 = cands[i];
        if (p as u128) * 20 >= (mid as u128) * 7 {
            let lower: bool = match found {
                Some(g) => p < g,
                None => true,
            };
            if lower {
                found = Some(p);
                proof {
                    assert(cands@[i as int] == p);
                }
            }
        }
        i += 1;
    }
    proof {
        lemma_median_is_item(cands@);
        let k = choose|k: int| 0 <= k < cands@.len() && cands@[k] == mid;
        assert(clears_guess_floor(cands@[k], mid));
        lemma_best_guess(cands@, found.unwrap());
    }
    found
}

/// The price that the given dollar amounts of the page `body` give.
/// `lower` is the lowercased page.
pub fn dollar_price_from(caps: &Vec<Capture>, body: &str, lower: &str) -> (r: Option<u64>)
    ensures
        r == best_guess(
            dollar_candidates(
                first_items(captures_view(caps@), DOLLAR_LIMIT as int),
                bytes_of(body@),
                lower@,
            ),
        ),
        r.is_some() ==> PRICE_MIN_CENTS <= r.unwrap() <= PRICE_MAX_CENTS,
{
    let n: usize = if caps.len() <= DOLLAR_LIMIT {
        caps.len()
    } else {
        DOLLAR_LIMIT
    };
    let ghost all = captures_view(caps@);
    let page = body.as_bytes();
    let context = chars_of(lower);
    let mut cands: Vec<u64> = Vec::new();
    let mut i: usize = 0;
    proof {
        assert(all.take(0) =~= Seq::<SpanView>::empty());
    }
    while i < n
        invariant
            0 <= i <= n <= caps@.len(),
            all == captures_view(caps@),
            page@ == bytes_of(body@),
            context@ == lower@,
            cands@ == dollar_candidates(all.take(i as int), page@, context@),
        decreases n - i,
    {
        proof {
            assert(all.take(i + 1).drop_last() =~= all.take(i as int));
            assert(all.take(i + 1).last() == capture_view(caps@[i as int]));
        }
        if let Some(p) = dollar_price_of(&caps[i], page, context.as_slice()) {
            cands.push(p);
        }
        i += 1;
    }
    proof {
        assert(all.take(all.len() as int) =~= all);
        lemma_dollar_candidates_within(first_items(all, DOLLAR_LIMIT as int), page@, context@);
    }
    let r = best_guess_of(&cands);
    proof {
        if r.is_some() {
            let k = choose|k: int| 0 <= k < cands@.len() && cands@[k] == r.unwrap();
            assert(PRICE_MIN_CENTS <= cands@[k] <= PRICE_MAX_CENTS);
        }
    }
    r
}

/// Whether `site` is one of the Amazon storefronts.
pub open spec fn is_amazon_family(site: Seq<char>) -> bool {
    site == "amazon"@ || site == "amazon_business"@
}

/// What embedded product data in `body` gives.
pub open spec fn json_ld_reading(body: Seq<char>) -> Option<u64> {
    match pattern_matches(JSON_LD_PATTERN@, body) {
        Some(caps) => json_ld_price(caps),
        None => None,
    }
}

/// What Amazon's markup in `body` gives.
pub open spec fn vendor_reading(body: Seq<char>) -> Option<u64> {
    match (
        pattern_matches(VENDOR_WHOLE_PATTERN@, body),
        pattern_matches(VENDOR_FRACTION_PATTERN@, body),
    ) {
        (Some(wholes), Some(fractions)) => vendor_price(wholes, fractions),
        _ => None,
    }
}

/// What the dollar amounts in `body` give.
pub open spec fn dollar_reading(body: Seq<char>) -> Option<u64> {
    match pattern_matches(DOLLAR_PATTERN@, body) {
        Some(caps) => best_guess(
            dollar_candidates(
                first_items(caps, DOLLAR_LIMIT as int),
                bytes_of(body),
                lowercase_text(body),
            ),
        ),
        None => None,
    }
}

/// The price of a page: the first of the three readings that gives one; the
/// markup reading is tried for the Amazon storefronts only.
pub open spec fn page_price(site: Seq<char>, body: Seq<char>) -> Option<u64> {
    if json_ld_reading(body).is_some() {
        json_ld_reading(body)
    } else if is_amazon_family(site) && vendor_reading(body).is_some() {
        vendor_reading(body)
    } else {
        dollar_reading(body)
    }
}

/// A price read from embedded product data or from markup lies in the accepted range.
pub proof fn lemma_structured_readings_in_range(body: Seq<char>)
    ensures
        json_ld_reading(body).is_some() ==> PRICE_MIN_CENTS <= json_ld_reading(body).unwrap()
            <= PRICE_MAX_CENTS,
        vendor_reading(body).is_some() ==> PRICE_MIN_CENTS <= vendor_reading(body).unwrap()
            <= PRICE_MAX_CENTS,
{
    if let Some(caps) = pattern_matches(JSON_LD_PATTERN@, body) {
        let prices = ranged_prices(first_items(caps, JSON_LD_LIMIT as int), PRICE_MIN_CENTS);
        lemma_ranged_prices_within(first_items(caps, JSON_LD_LIMIT as int), PRICE_MIN_CENTS);
        lemma_median_within(prices, PRICE_MIN_CENTS, PRICE_MAX_CENTS);
    }
    if let (Some(wholes), Some(fractions)) = (
        pattern_matches(VENDOR_WHOLE_PATTERN@, body),
        pattern_matches(VENDOR_FRACTION_PATTERN@, body),
    ) {
        lemma_ranged_prices_within(first_items(wholes, VENDOR_LIMIT as int), VENDOR_MIN_CENTS);
        lemma_paired_prices_within(wholes, fractions, pair_count(wholes, fractions));
        lemma_median_within(vendor_candidates(wholes, fractions), VENDOR_MIN_CENTS, PRICE_MAX_CENTS);
    }
}

/// Whatever price a page gives lies between 3.00 and 50000.00.
pub proof fn lemma_page_price_in_range(site: Seq<char>, body: Seq<char>)
    ensures
        page_price(site, body).is_some() ==> PRICE_MIN_CENTS <= page_price(site, body).unwrap()
            <= PRICE_MAX_CENTS,
{
    lemma_structured_readings_in_range(body);
    if let Some(caps) = pattern_matches(DOLLAR_PATTERN@, body) {
        let cands = dollar_candidates(
            first_items(caps, DOLLAR_LIMIT as int),
            bytes_of(body),
            lowercase_text(body),
        );
        if cands.len() > 0 {
            lemma_best_guess_exists(cands);
            lemma_dollar_candidates_within(
                first_items(caps, DOLLAR_LIMIT as int),
                bytes_of(body),
                lowercase_text(body),
            );
            let g = best_guess(cands).unwrap();
            let k = choose|k: int| 0 <= k < cands.len() && cands[k] == g;
            assert(PRICE_MIN_CENTS <= cands[k] <= PRICE_MAX_CENTS);
        }
    }
}

/// Reads the price of a search page of `site`, in cents.
///
/// Whatever is returned lies between 3.00 and 50000.00.
pub fn extract_price_from_body(site: &str, body: &str) -> (r: Option<u64>)
    ensures
        r == page_price(site@, body@),
        r.is_some() ==> PRICE_MIN_CENTS <= r.unwrap() <= PRICE_MAX_CENTS,
{
    proof {
        lemma_structured_readings_in_range(body@);
    }
    let embedded = extract_price_from_json_ld(body);
    if embedded.is_some() {
        return embedded;
    }
    if text_eq(site, "amazon") || text_eq(site, "amazon_business") {
        let marked = extract_amazon_price(body);
        if marked.is_some() {
            return marked;
        }
    }
    let caps = match find_captures(DOLLAR_PATTERN, body) {
        Some(c) => c,
        None => {
            return None;
        },
    };
    let lower = lowercase(body);
    dollar_price_from(&caps, body, lower.as_str())
}

} // verus!
