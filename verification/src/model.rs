//! The data of a quote: requests, per-site matches and results.

use vstd::prelude::*;
use crate::price::in_offer_range;
use crate::text::text_eq;

verus! {

/// The currency of every price.
pub const CURRENCY: &'static str = "USD";

/// One product to look up.
#[derive(Clone, Debug)]
pub struct QuoteItem {
    pub query: String,
    pub qty: u32,
}

#[derive(Clone, Copy, Debug)]
pub struct QuoteOptions {
    /// Seconds for which a cached match counts as fresh.
    pub cache_ttl: Option<u64>,
}

/// A search-URL template for one site; `{q}` in it stands for the query.
#[derive(Clone, Debug)]
pub struct SiteOverride {
    pub site: String,
    pub template: String,
}

#[derive(Clone, Debug)]
pub struct QuoteRequest {
    pub run_id: Option<String>,
    pub items: Vec<QuoteItem>,
    pub category: String,
    /// The sites to consult, in order; a site named twice is consulted twice.
    pub site_plan: Vec<String>,
    /// Templates that replace the built-in search URLs; the first entry for a
    /// site counts.
    pub site_overrides: Option<Vec<SiteOverride>>,
    pub options: Option<QuoteOptions>,
}

/// How the lookup on one site ended.
#[derive(Clone, Copy, Debug, PartialEq, Eq, Structural)]
pub enum MatchStatus {
    /// A price was found.
    Found,
    /// A page came back and held no price.
    NotFound,
    /// The match was served from the cache.
    Cached,
    /// The site refused the request on the last attempt.
    Blocked,
    /// The site answered with a challenge page on the last attempt.
    UnsupportedJs,
    /// The request failed.
    Error,
}

/// What one site returned for one query. `price` is in cents.
#[derive(Clone, Debug)]
pub struct SiteMatch {
    pub site: String,
    pub title: Option<String>,
    pub price: Option<u64>,
    pub currency: Option<String>,
    pub url: Option<String>,
    pub status: MatchStatus,
    pub message: Option<String>,
    pub latency_ms: Option<u128>,
}

/// The cheapest credible offer for an item. `price` is in cents.
#[derive(Clone, Debug)]
pub struct BestMatch {
    pub site: String,
    pub price: u64,
    pub url: String,
}

#[derive(Clone, Debug)]
pub struct ItemResult {
    pub query: String,
    pub matches: Vec<SiteMatch>,
    pub best: Option<BestMatch>,
}

#[derive(Clone, Debug)]
pub struct QuoteResponse {
    pub run_id: String,
    pub started_at: String,
    pub duration_ms: u128,
    pub items: Vec<ItemResult>,
}

/// A match as the contracts see it: each text by its characters.
pub struct MatchView {
    pub site: Seq<char>,
    pub title: Option<Seq<char>>,
    pub price: Option<u64>,
    pub currency: Option<Seq<char>>,
    pub url: Option<Seq<char>>,
    pub status: MatchStatus,
    pub message: Option<Seq<char>>,
    pub latency_ms: Option<u128>,
}

/// The characters of an optional text.
pub open spec fn text_view(t: Option<String>) -> Option<Seq<char>> {
    match t {
        Some(s) => Some(s@),
        None => None,
    }
}

impl View for SiteMatch {
    type V = MatchView;

    open spec fn view(&self) -> MatchView {
        MatchView {
            site: self.site@,
            title: text_view(self.title),
            price: self.price,
            currency: text_view(self.currency),
            url: text_view(self.url),
            status: self.status,
            message: text_view(self.message),
            latency_ms: self.latency_ms,
        }
    }
}

impl MatchStatus {
    /// The status as it is written on the wire.
    pub open spec fn label_text(self) -> Seq<char> {
        match self {
            MatchStatus::Found => "ok"@,
            MatchStatus::NotFound => "not_found"@,
            MatchStatus::Cached => "cached"@,
            MatchStatus::Blocked => "blocked"@,
            MatchStatus::UnsupportedJs => "unsupported_js"@,
            MatchStatus::Error => "error"@,
        }
    }

    /// The status as it is written on the wire.
    pub fn label(&self) -> (r: &'static str)
        ensures
            r@ == self.label_text(),
    {
        match self {
            MatchStatus::Found => "ok",
            MatchStatus::NotFound => "not_found",
            MatchStatus::Cached => "cached",
            MatchStatus::Blocked => "blocked",
            MatchStatus::UnsupportedJs => "unsupported_js",
            MatchStatus::Error => "error",
        }
    }

    /// The status that a word names, if it names one.
    pub open spec fn named(word: Seq<char>) -> Option<MatchStatus> {
        if word == "ok"@ {
            Some(MatchStatus::Found)
        } else if word == "not_found"@ {
            Some(MatchStatus::NotFound)
        } else if word == "cached"@ {
            Some(MatchStatus::Cached)
        } else if word == "blocked"@ {
            Some(MatchStatus::Blocked)
        } else if word == "unsupported_js"@ {
            Some(MatchStatus::UnsupportedJs)
        } else if word == "error"@ {
            Some(MatchStatus::Error)
        } else {
            None
        }
    }

    /// Reads a status as it is written on the wire.
    pub fn from_label(word: &str) -> (r: Option<MatchStatus>)
        ensures
            r == MatchStatus::named(word@),
    {
        if text_eq(word, "ok") {
            Some(MatchStatus::Found)
        } else if text_eq(word, "not_found") {
            Some(MatchStatus::NotFound)
        } else if text_eq(word, "cached") {
            Some(MatchStatus::Cached)
        } else if text_eq(word, "blocked") {
            Some(MatchStatus::Blocked)
        } else if text_eq(word, "unsupported_js") {
            Some(MatchStatus::UnsupportedJs)
        } else if text_eq(word, "error") {
            Some(MatchStatus::Error)
        } else {
            None
        }
    }

    /// Whether a match with this status may be written to the cache.
    pub fn is_cacheable(&self) -> (r: bool)
        ensures
            r == (*self == MatchStatus::Found || *self == MatchStatus::NotFound),
    {
        match self {
            MatchStatus::Found | MatchStatus::NotFound => true,
            _ => false,
        }
    }
}

impl MatchView {
    /// A match that claims a price carries one inside the accepted range,
    /// and a link; one that tells of no price and is not from the cache
    /// carries none.
    pub open spec fn well_formed(self) -> bool {
        &&& self.status == MatchStatus::Found ==> {
            &&& self.price.is_some()
            &&& self.url.is_some()
            &&& in_offer_range(self.price.unwrap())
        }
        &&& self.status != MatchStatus::Found && self.status != MatchStatus::Cached
            ==> self.price.is_none()
    }
}

impl SiteMatch {
    /// Whether this match is well formed.
    pub open spec fn well_formed(self) -> bool {
        self@.well_formed()
    }

    /// A copy of this match.
    pub fn duplicate(&self) -> (r: SiteMatch)
        ensures
            r == *self,
    {
        SiteMatch {
            site: self.site.clone(),
            title: copy_text(&self.title),
            price: self.price,
            currency: copy_text(&self.currency),
            url: copy_text(&self.url),
            status: self.status,
            message: copy_text(&self.message),
            latency_ms: self.latency_ms,
        }
    }
}

/// A copy of an optional text.
pub fn copy_text(t: &Option<String>) -> (r: Option<String>)
    ensures
        r == *t,
{
    match t {
        Some(s) => Some(s.clone()),
        None => None,
    }
}

} // verus!
