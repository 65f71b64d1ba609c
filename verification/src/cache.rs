//! The cache-aside rules: how a match is keyed, when the cache is asked,
//! when a row is fresh, and when a match is written back.

use vstd::prelude::*;
use vstd::string::{StringExecFns, StringSliceAdditionalSpecFns};
use crate::model::{copy_text, MatchStatus, QuoteRequest, SiteMatch};
use crate::outside::{percent_encode, percent_encoding, sha256_hex, sha256_hex_digest};
use crate::price::{all_digits, decimal, is_digit, lemma_decimal_monotone};
use crate::scrape::{elapsed_between, latency};
use crate::text::bytes_of;

verus! {

/// Where the table of cached matches lives, below the store's base URL.
pub const TABLE_PATH: &'static str = "/rest/v1/price_cache";

/// The query of a lookup, up to the key.
pub const LOOKUP_QUERY: &'static str = "?select=payload,updated_at&key=eq.";

/// What an upsert asks of the store when the key exists.
pub const MERGE_PREFERENCE: &'static str = "resolution=merge-duplicates";

/// How the store is reached. Without a base URL or a key the cache is off.
#[derive(Clone, Debug)]
pub struct CacheConfig {
    pub base_url: Option<String>,
    pub service_key: Option<String>,
    /// The key that is used where there is no service key.
    pub secret_key: Option<String>,
}

/// A lookup to send: a GET of `url` with the two headers.
#[derive(Clone, Debug)]
pub struct CacheLookup {
    pub url: String,
    pub api_key: String,
    pub authorization: String,
}

/// An upsert to send: a POST to `url` of a row with `key`, `site`,
/// `query_hash`, the match and the time of writing.
#[derive(Clone, Debug)]
pub struct CacheWrite {
    pub url: String,
    pub api_key: String,
    pub authorization: String,
    pub prefer: String,
    pub key: String,
    pub site: String,
    pub query_hash: String,
}

/// The key of a site and query: the site, a colon, and the digest of the
/// query's bytes. Queries that differ in case have different keys.
pub open spec fn cache_key_text(site: Seq<char>, query: Seq<char>) -> Seq<char> {
    site + ":"@ + sha256_hex(bytes_of(query))
}

/// The URL that a lookup of `site` and `query` goes to.
pub open spec fn lookup_url(base: Seq<char>, site: Seq<char>, query: Seq<char>) -> Seq<char> {
    base + TABLE_PATH@ + LOOKUP_QUERY@ + percent_encoding(bytes_of(cache_key_text(site, query)))
}

/// The key that requests are signed with.
pub open spec fn api_key_of(config: CacheConfig) -> Option<String> {
    if config.service_key.is_some() {
        config.service_key
    } else {
        config.secret_key
    }
}

/// Whether the store can be reached at all.
pub open spec fn is_configured(config: CacheConfig) -> bool {
    config.base_url.is_some() && api_key_of(config).is_some()
}

/// The value of the authorization header for `key`.
pub open spec fn bearer(key: Seq<char>) -> Seq<char> {
    "Bearer "@ + key
}

/// Whether a row of the given age is still served under `ttl`.
pub open spec fn is_fresh(age_seconds: i64, ttl: u64) -> bool {
    age_seconds as int <= ttl as int
}

/// The digest of a query that its cache key is made of.
pub fn query_hash(query: &str) -> (r: String)
    ensures
        r@ == sha256_hex(bytes_of(query@)),
{
    sha256_hex_digest(query.as_bytes())
}

/// The cache key of a site and query.
pub fn cache_key(site: &str, query: &str) -> (r: String)
    ensures
        r@ == cache_key_text(site@, query@),
{
    let hash = query_hash(query);
    let mut key = String::from_str(site);
    key.append(":");
    key.append(hash.as_str());
    key
}

fn api_key(config: &CacheConfig) -> (r: Option<String>)
    ensures
        r == api_key_of(*config),
{
    if config.service_key.is_some() {
        copy_text(&config.service_key)
    } else {
        copy_text(&config.secret_key)
    }
}

fn bearer_of(key: &str) -> (r: String)
    ensures
        r@ == bearer(key@),
{
    let mut value = String::from_str("Bearer ");
    value.append(key);
    value
}

/// The digits of a number in decimal notation: the text without the `+`
/// that may stand in front.
pub open spec fn unsigned_digits(text: Seq<u8>) -> Seq<u8> {
    if text.len() > 0 && text[0] == 0x2b {
        text.skip(1)
    } else {
        text
    }
}

/// The number of seconds that a text denotes: decimal digits, one at
/// least, that give a number within 64 bits. Any other text denotes nothing.
pub open spec fn seconds_of(text: Seq<u8>) -> Option<u64> {
    let digits = unsigned_digits(text);
    if digits.len() > 0 && all_digits(digits) && decimal(digits) <= u64::MAX {
        Some(decimal(digits) as u64)
    } else {
        None
    }
}

/// The default that a configured text gives: its number, or none.
pub open spec fn configured_seconds(configured: Option<&str>) -> u64 {
    match configured {
        Some(text) => match seconds_of(bytes_of(text@)) {
            Some(t) => t,
            None => 0,
        },
        None => 0,
    }
}

/// Reads a number of seconds in decimal notation.
pub fn parse_seconds(text: &str) -> (r: Option<u64>)
    ensures
        r == seconds_of(bytes_of(text@)),
{
    let bytes = text.as_bytes();
    let n: usize = bytes.len();
    let from: usize = if n > 0 && bytes[0] == 0x2b {
        1
    } else {
        0
    };
    if from == n {
        return None;
    }
    let ghost digits = unsigned_digits(bytes@);
    proof {
        assert(digits =~= bytes@.subrange(from as int, n as int));
    }
    let mut acc: u64 = 0;
    let mut i: usize = from;
    while i < n
        invariant
            from <= i <= n,
            n == bytes@.len(),
            bytes@ == bytes_of(text@),
            digits == unsigned_digits(bytes@),
            digits == bytes@.subrange(from as int, n as int),
            all_digits(digits.take(i - from)),
            acc == decimal(digits.take(i - from)),
        decreases n - i,
    {
        let b: u8 = bytes[i];
        if b < 0x30 || b > 0x39 {
            proof {
                assert(digits[i - from] == b);
            }
            return None;
        }
        let d: u64 = (b - 0x30) as u64;
        proof {
            let next = digits.take(i - from + 1);
            assert(next.drop_last() =~= digits.take(i - from));
            assert(next.last() == b);
            assert forall|k: int| 0 <= k < next.len() implies is_digit(#[trigger] next[k]) by {
                if k < i - from {
                    assert(next[k] == digits.take(i - from)[k]);
                }
            }
            assert(decimal(next) == acc * 10 + d);
            if all_digits(digits) {
                lemma_decimal_monotone(digits, i - from + 1);
            }
        }
        if acc > (u64::MAX - d) / 10 {
            proof {
                assert(acc * 10 + d > u64::MAX);
            }
            return None;
        }
        acc = acc * 10 + d;
        i += 1;
    }
    proof {
        assert(digits.take(n - from) =~= digits);
    }
    Some(acc)
}

/// The seconds for which cached matches count as fresh in a run: what the
/// request asks for; else the number that the configured text denotes; else
/// none, which turns the cache off.
pub fn ttl_seconds(request: &QuoteRequest, configured: Option<&str>) -> (ttl: u64)
    ensures
        ttl == match request.options {
            Some(options) => match options.cache_ttl {
                Some(t) => t,
                None => configured_seconds(configured),
            },
            None => configured_seconds(configured),
        },
{
    if let Some(options) = &request.options {
        if let Some(t) = options.cache_ttl {
            return t;
        }
    }
    match configured {
        Some(text) => match parse_seconds(text) {
            Some(t) => t,
            None => 0,
        },
        None => 0,
    }
}

/// The lookup to send before a scrape, if any.
///
/// None is sent where `ttl` is zero or the store is not configured.
pub fn plan_cache_get(site: &str, query: &str, ttl: u64, config: &CacheConfig) -> (r: Option<
    CacheLookup,
>)
    ensures
        r.is_some() <==> ttl != 0 && is_configured(*config),
        r.is_some() ==> {
            &&& r.unwrap().url@ == lookup_url(config.base_url.unwrap()@, site@, query@)
            &&& r.unwrap().api_key == api_key_of(*config).unwrap()
            &&& r.unwrap().authorization@ == bearer(api_key_of(*config).unwrap()@)
        },
{
    if ttl == 0 {
        return None;
    }
    match (&config.base_url, api_key(config)) {
        (Some(base), Some(key)) => {
            let row_key = cache_key(site, query);
            let encoded = percent_encode(row_key.as_str());
            let mut url = String::from_str(base.as_str());
            url.append(TABLE_PATH);
            url.append(LOOKUP_QUERY);
            url.append(encoded.as_str());
            let authorization = bearer_of(key.as_str());
            Some(CacheLookup { url, api_key: key, authorization })
        },
        _ => None,
    }
}

/// Whether a row of the given age is still served under `ttl`.
pub fn row_is_fresh(age_seconds: i64, ttl: u64) -> (r: bool)
    ensures
        r == is_fresh(age_seconds, ttl),
{
    age_seconds < 0 || (age_seconds as u64) <= ttl
}

/// What a found row gives: its match where the row is fresh, else nothing.
pub fn accept_row(payload: SiteMatch, age_seconds: i64, ttl: u64) -> (r: Option<SiteMatch>)
    ensures
        r == if is_fresh(age_seconds, ttl) {
            Some(payload)
        } else {
            None
        },
{
    if row_is_fresh(age_seconds, ttl) {
        Some(payload)
    } else {
        None
    }
}

/// A match from the cache as it is handed out: marked as cached, with the
/// time between the entry of the scrape and now, and otherwise as it was
/// stored.
pub fn as_cached(found: SiteMatch, entered_ms: u128, returned_ms: u128) -> (r: SiteMatch)
    ensures
        r == (SiteMatch {
            status: MatchStatus::Cached,
            latency_ms: Some(elapsed_between(entered_ms, returned_ms)),
            ..found
        }),
{
    SiteMatch {
        status: MatchStatus::Cached,
        latency_ms: Some(latency(entered_ms, returned_ms)),
        ..found
    }
}

/// The upsert to send after a scrape, if any.
///
/// None is sent for a match that is neither a price nor a page without
/// one, where `ttl` is zero, or where the store is not configured.
pub fn plan_cache_put(site: &str, query: &str, status: MatchStatus, ttl: u64, config: &CacheConfig) -> (r:
    Option<CacheWrite>)
    ensures
        r.is_some() <==> (status == MatchStatus::Found || status == MatchStatus::NotFound) && ttl
            != 0 && is_configured(*config),
        r.is_some() ==> {
            &&& r.unwrap().url@ == config.base_url.unwrap()@ + TABLE_PATH@
            &&& r.unwrap().api_key == api_key_of(*config).unwrap()
            &&& r.unwrap().authorization@ == bearer(api_key_of(*config).unwrap()@)
            &&& r.unwrap().prefer@ == MERGE_PREFERENCE@
            &&& r.unwrap().key@ == cache_key_text(site@, query@)
            &&& r.unwrap().site@ == site@
            &&& r.unwrap().query_hash@ == sha256_hex(bytes_of(query@))
        },
{
    if !status.is_cacheable() || ttl == 0 {
        return None;
    }
    match (&config.base_url, api_key(config)) {
        (Some(base), Some(key)) => {
            let mut url = String::from_str(base.as_str());
            url.append(TABLE_PATH);
            let authorization = bearer_of(key.as_str());
            Some(
                CacheWrite {
                    url,
                    api_key: key,
                    authorization,
                    prefer: String::from_str(MERGE_PREFERENCE),
                    key: cache_key(site, query),
                    site: String::from_str(site),
                    query_hash: query_hash(query),
                },
            )
        },
        _ => None,
    }
}

} // verus!
