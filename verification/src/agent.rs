//! What a request says of its sender, and how a challenge page is told.

use vstd::prelude::*;
use vstd::string::{StringExecFns, StringSliceAdditionalSpecFns};
use crate::outside::{lowercase, lowercase_text};
use crate::text::{bytes_of, contains_bytes, occurs_in};

verus! {

/// How many user agents the pool holds.
pub const USER_AGENT_COUNT: usize = 5;

/// The multiplier that mixes a byte into the seed.
pub const SEED_FACTOR: u64 = 131;

/// The user agents that requests go out under.
pub open spec fn pool_entry(i: int) -> Seq<char> {
    if i == 0 {
        "Mozilla/5.0 (Windows NT 10.0; Win64; x64) AppleWebKit/537.36 (KHTML, like Gecko) Chrome/124.0.0.0 Safari/537.36"@
    } else if i == 1 {
        "Mozilla/5.0 (Macintosh; Intel Mac OS X 13_6_4) AppleWebKit/537.36 (KHTML, like Gecko) Chrome/123.0.0.0 Safari/537.36"@
    } else if i == 2 {
        "Mozilla/5.0 (X11; Linux x86_64) AppleWebKit/537.36 (KHTML, like Gecko) Chrome/122.0.0.0 Safari/537.36"@
    } else if i == 3 {
        "Mozilla/5.0 (Windows NT 10.0; Win64; x64; rv:124.0) Gecko/20100101 Firefox/124.0"@
    } else {
        "Mozilla/5.0 (Macintosh; Intel Mac OS X 13.6; rv:123.0) Gecko/20100101 Firefox/123.0"@
    }
}

/// The seed after `bytes` were mixed in, one by one, modulo 2^64.
pub open spec fn mixed(seed: int, bytes: Seq<u8>) -> int
    decreases bytes.len(),
{
    if bytes.len() == 0 {
        seed
    } else {
        (mixed(seed, bytes.drop_last()) * SEED_FACTOR + bytes.last()) % 0x1_0000_0000_0000_0000
    }
}

/// The place in the pool of the user agent for an attempt on a site and
/// query: the attempt's number with the bytes of the site, then of the query,
/// mixed in.
pub open spec fn agent_index(site: Seq<char>, query: Seq<char>, attempt: int) -> int {
    mixed(mixed(attempt % 0x1_0000_0000_0000_0000, bytes_of(site)), bytes_of(query))
        % (USER_AGENT_COUNT as int)
}

/// The user agent at place `i` of the pool.
pub fn user_agent(i: usize) -> (r: &'static str)
    requires
        i < USER_AGENT_COUNT,
    ensures
        r@ == pool_entry(i as int),
{
    if i == 0 {
        "Mozilla/5.0 (Windows NT 10.0; Win64; x64) AppleWebKit/537.36 (KHTML, like Gecko) Chrome/124.0.0.0 Safari/537.36"
    } else if i == 1 {
        "Mozilla/5.0 (Macintosh; Intel Mac OS X 13_6_4) AppleWebKit/537.36 (KHTML, like Gecko) Chrome/123.0.0.0 Safari/537.36"
    } else if i == 2 {
        "Mozilla/5.0 (X11; Linux x86_64) AppleWebKit/537.36 (KHTML, like Gecko) Chrome/122.0.0.0 Safari/537.36"
    } else if i == 3 {
        "Mozilla/5.0 (Windows NT 10.0; Win64; x64; rv:124.0) Gecko/20100101 Firefox/124.0"
    } else {
        "Mozilla/5.0 (Macintosh; Intel Mac OS X 13.6; rv:123.0) Gecko/20100101 Firefox/123.0"
    }
}

fn mix_in(seed: u64, bytes: &[u8]) -> (r: u64)
    ensures
        r == mixed(seed as int, bytes@),
{
    let mut acc: u64 = seed;
    let mut i: usize = 0;
    proof {
        assert(bytes@.take(0) =~= Seq::<u8>::empty());
    }
    while i < bytes.len()
        invariant
            0 <= i <= bytes.len(),
            acc == mixed(seed as int, bytes@.take(i as int)),
        decreases bytes.len() - i,
    {
        proof {
            assert(bytes@.take(i + 1).drop_last() =~= bytes@.take(i as int));
        }
        let wide: u128 = (acc as u128) * (SEED_FACTOR as u128) + (bytes[i] as u128);
        acc = (wide % 0x1_0000_0000_0000_0000u128) as u64;
        i += 1;
    }
    proof {
        assert(bytes@.take(bytes@.len() as int) =~= bytes@);
    }
    acc
}

/// The user agent for an attempt on a site and query. The same three
/// arguments always give the same user agent.
pub fn pick_user_agent(site: &str, query: &str, attempt: usize) -> (r: &'static str)
    ensures
        r@ == pool_entry(agent_index(site@, query@, attempt as int)),
{
    let seed: u64 = attempt as u64;
    let with_site = mix_in(seed, site.as_bytes());
    let with_query = mix_in(with_site, query.as_bytes());
    user_agent((with_query % 5) as usize)
}

/// Whether lowercased page bytes hold one of the phrases of a challenge page.
pub open spec fn is_challenge_text(lower: Seq<u8>) -> bool {
    ||| occurs_in(lower, bytes_of("enable javascript"@))
    ||| occurs_in(lower, bytes_of("captcha"@))
    ||| occurs_in(lower, bytes_of("pardon our interruption"@))
    ||| occurs_in(lower, bytes_of("are you a human"@))
    ||| occurs_in(lower, bytes_of("cloudflare"@))
    ||| occurs_in(lower, bytes_of("access denied"@))
    ||| occurs_in(lower, bytes_of("bot detection"@))
}

/// Whether a lowercased page looks like a challenge in place of results.
pub fn likely_bot_challenge(lower_body: &str) -> (r: bool)
    ensures
        r == is_challenge_text(bytes_of(lower_body@)),
{
    let page = lower_body.as_bytes();
    contains_bytes(page, "enable javascript".as_bytes()) || contains_bytes(page, "captcha".as_bytes())
        || contains_bytes(page, "pardon our interruption".as_bytes()) || contains_bytes(
        page,
        "are you a human".as_bytes(),
    ) || contains_bytes(page, "cloudflare".as_bytes()) || contains_bytes(
        page,
        "access denied".as_bytes(),
    ) || contains_bytes(page, "bot detection".as_bytes())
}

/// Whether a page looks like a challenge, whatever the case of its letters.
pub fn is_bot_challenge(body: &str) -> (r: bool)
    ensures
        r == is_challenge_text(bytes_of(lowercase_text(body@))),
{
    let lower = lowercase(body);
    likely_bot_challenge(lower.as_str())
}

/// One request header.
#[derive(Clone, Debug)]
pub struct Header {
    pub name: String,
    pub value: String,
}

/// Whether a byte may stand in a header value: a tab, or anything from the
/// space on but the delete character.
pub open spec fn is_header_byte(b: u8) -> bool {
    (b >= 32 && b != 127) || b == 9
}

pub open spec fn is_header_value(bytes: Seq<u8>) -> bool {
    forall|i: int| 0 <= i < bytes.len() ==> is_header_byte(#[trigger] bytes[i])
}

/// Whether `value` can be sent as a header value.
pub fn header_value_ok(value: &str) -> (r: bool)
    ensures
        r == is_header_value(bytes_of(value@)),
{
    let bytes = value.as_bytes();
    let mut i: usize = 0;
    while i < bytes.len()
        invariant
            0 <= i <= bytes.len(),
            bytes@ == bytes_of(value@),
            forall|k: int| 0 <= k < i ==> is_header_byte(#[trigger] bytes@[k]),
        decreases bytes.len() - i,
    {
        let b: u8 = bytes[i];
        if !((b >= 32 && b != 127) || b == 9) {
            proof {
                assert(!is_header_byte(bytes_of(value@)[i as int]));
            }
            return false;
        }
        i += 1;
    }
    true
}

/// The user agent that is sent for `user_agent`: itself where it can be
/// sent, else the first of the pool.
pub open spec fn sent_agent(user_agent: Seq<char>) -> Seq<char> {
    if is_header_value(bytes_of(user_agent)) {
        user_agent
    } else {
        pool_entry(0)
    }
}

pub open spec fn is_header(h: Header, name: Seq<char>, value: Seq<char>) -> bool {
    h.name@ == name && h.value@ == value
}

fn header(name: &str, value: &str) -> (h: Header)
    ensures
        is_header(h, name@, value@),
{
    Header { name: String::from_str(name), value: String::from_str(value) }
}

/// The headers of a page request under `user_agent`.
pub fn build_headers_with_ua(user_agent: &str) -> (r: Vec<Header>)
    ensures
        r@.len() == 6,
        is_header(r@[0], "user-agent"@, sent_agent(user_agent@)),
        is_header(
            r@[1],
            "accept"@,
            "text/html,application/xhtml+xml,application/xml;q=0.9,*/*;q=0.8"@,
        ),
        is_header(r@[2], "accept-language"@, "en-US,en;q=0.9"@),
        is_header(r@[3], "sec-fetch-dest"@, "document"@),
        is_header(r@[4], "sec-fetch-mode"@, "navigate"@),
        is_header(r@[5], "sec-fetch-site"@, "none"@),
{
    let agent: &str = if header_value_ok(user_agent) {
        user_agent
    } else {
        self::user_agent(0)
    };
    let mut headers: Vec<Header> = Vec::new();
    headers.push(header("user-agent", agent));
    headers.push(header("accept", "text/html,application/xhtml+xml,application/xml;q=0.9,*/*;q=0.8"));
    headers.push(header("accept-language", "en-US,en;q=0.9"));
    headers.push(header("sec-fetch-dest", "document"));
    headers.push(header("sec-fetch-mode", "navigate"));
    headers.push(header("sec-fetch-site", "none"));
    headers
}

} // verus!
