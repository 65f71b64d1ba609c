//! The scrape of one site for one query, as a state machine.
//!
//! The caller sends the requests and sleeps; after each step it reports what
//! happened and is told what to do next. Two attempts are made at most.

use vstd::prelude::*;
use vstd::slice::slice_subrange;
use vstd::string::{StringExecFns, StringSliceAdditionalSpecFns};
use crate::agent::{is_bot_challenge, is_challenge_text};
use crate::extract::{extract_price_from_body, first_items, lemma_page_price_in_range, page_price};
use crate::model::{text_view, MatchStatus, MatchView, SiteMatch, CURRENCY};
use crate::outside::{decode_lossy, lossy_text, lowercase_text};
use crate::page::{extract_result_url, extract_title, page_title, result_link};
use crate::text::{bytes_of, decimal_text, number_text};

verus! {

/// How much of a response body is read: 512 KiB.
pub const MAX_BODY_BYTES: usize = 524_288;

/// The deadline of the first attempt, in seconds.
pub const FIRST_TIMEOUT_SECS: u64 = 5;

/// The deadline of the second attempt, in seconds.
pub const RETRY_TIMEOUT_SECS: u64 = 3;

/// The pause before the retry after a failed or overdue request, in milliseconds.
pub const TRANSPORT_PAUSE_MS: u64 = 250;

/// The pause before the retry after a refusal or a challenge page.
pub const REFUSAL_PAUSE_MS: u64 = 300;

/// The pause before the retry after a body that could not be read.
pub const BODY_PAUSE_MS: u64 = 200;

pub const CHALLENGE_MESSAGE: &'static str = "site requires browser execution or anti-bot challenge";

pub const CLIENT_FAILURE_PREFIX: &'static str = "client_init_failed: ";

pub const STATUS_PREFIX: &'static str = "http_status_";

/// What went wrong in an attempt.
#[derive(Debug)]
pub enum Failure {
    /// The request could not be sent or answered; the text says why.
    Transport(String),
    /// The deadline passed.
    Timeout,
    /// The site answered 403, 429 or 503.
    Refused(u16),
    /// The body could not be read; the text says why.
    BodyRead(String),
    /// A challenge page came in place of results.
    Challenge,
}

/// What is remembered between the steps of a scrape.
#[derive(Debug)]
pub struct ScrapeState {
    /// The number of the attempt under way: 0, then 1.
    pub attempt: usize,
    /// What went wrong last.
    pub last: Option<Failure>,
}

/// What the caller reports.
#[derive(Debug)]
pub enum ScrapeEvent {
    /// The HTTP client could not be set up.
    ClientInitFailed(String),
    /// The request failed.
    TransportError(String),
    /// The deadline passed before an answer came.
    Timeout,
    /// An answer with this HTTP status came.
    Status(u16),
    /// The body of the answer could not be read.
    BodyError(String),
    /// The body of the answer, as text.
    Body(String),
}

/// What the caller is to do next.
#[derive(Debug)]
pub enum ScrapeAction {
    /// Wait `delay_ms`, then send the request as attempt `attempt`, under
    /// the user agent of that attempt, and wait `timeout_secs` at most.
    Fetch { attempt: usize, delay_ms: u64, timeout_secs: u64 },
    /// Read the body of the answer.
    ReadBody,
    /// Hand out `outcome`, with the time that the scrape took; write it to
    /// the cache where `store` is set.
    Finish { outcome: SiteMatch, store: bool },
}

/// An action as the contracts see it.
pub enum ActionView {
    Fetch { attempt: usize, delay_ms: u64, timeout_secs: u64 },
    ReadBody,
    Finish { outcome: MatchView, store: bool },
}

pub open spec fn action_view(a: ScrapeAction) -> ActionView {
    match a {
        ScrapeAction::Fetch { attempt, delay_ms, timeout_secs } => ActionView::Fetch {
            attempt,
            delay_ms,
            timeout_secs,
        },
        ScrapeAction::ReadBody => ActionView::ReadBody,
        ScrapeAction::Finish { outcome, store } => ActionView::Finish { outcome: outcome@, store },
    }
}

/// Whether an HTTP status tells that the site refuses the request.
pub open spec fn is_refusal(status: u16) -> bool {
    status == 403 || status == 429 || status == 503
}

/// Whether a page is a challenge in place of results.
pub open spec fn is_challenge_page(body: Seq<char>) -> bool {
    is_challenge_text(bytes_of(lowercase_text(body)))
}

/// What an event tells went wrong, if anything.
pub open spec fn observed(event: ScrapeEvent) -> Option<Failure> {
    match event {
        ScrapeEvent::ClientInitFailed(_) => None,
        ScrapeEvent::TransportError(m) => Some(Failure::Transport(m)),
        ScrapeEvent::Timeout => Some(Failure::Timeout),
        ScrapeEvent::Status(s) => if is_refusal(s) {
            Some(Failure::Refused(s))
        } else {
            None
        },
        ScrapeEvent::BodyError(m) => Some(Failure::BodyRead(m)),
        ScrapeEvent::Body(b) => if is_challenge_page(b@) {
            Some(Failure::Challenge)
        } else {
            None
        },
    }
}

/// The pause before the retry after a failure.
pub open spec fn retry_pause(f: Failure) -> u64 {
    match f {
        Failure::Transport(_) => TRANSPORT_PAUSE_MS,
        Failure::Timeout => TRANSPORT_PAUSE_MS,
        Failure::Refused(_) => REFUSAL_PAUSE_MS,
        Failure::BodyRead(_) => BODY_PAUSE_MS,
        Failure::Challenge => REFUSAL_PAUSE_MS,
    }
}

/// A failure in words.
pub open spec fn failure_text(f: Failure) -> Seq<char> {
    match f {
        Failure::Transport(m) => m@,
        Failure::Timeout => "timeout"@,
        Failure::Refused(s) => STATUS_PREFIX@ + decimal_text(s as nat),
        Failure::BodyRead(m) => m@,
        Failure::Challenge => "challenge_detected"@,
    }
}

/// The state after an event: the failure that it reports is remembered, and
/// a first attempt that failed is followed by a second.
pub open spec fn next_state(state: ScrapeState, event: ScrapeEvent) -> ScrapeState {
    match observed(event) {
        Some(f) => ScrapeState {
            attempt: if state.attempt == 0 {
                1
            } else {
                state.attempt
            },
            last: Some(f),
        },
        None => state,
    }
}

/// A match without a price: what a scrape that got no page hands out.
pub open spec fn failure_view(
    site: Seq<char>,
    url: Seq<char>,
    status: MatchStatus,
    message: Option<Seq<char>>,
) -> MatchView {
    MatchView {
        site,
        title: None,
        price: None,
        currency: Some(CURRENCY@),
        url: Some(url),
        status,
        message,
        latency_ms: None,
    }
}

/// The match that a page of results gives: its title, its price, and the
/// link to its first result, or else to the search itself.
pub open spec fn page_view(site: Seq<char>, url: Seq<char>, body: Seq<char>) -> MatchView {
    MatchView {
        site,
        title: page_title(body),
        price: page_price(site, body),
        currency: Some(CURRENCY@),
        url: if result_link(site, body).is_some() {
            result_link(site, body)
        } else {
            Some(url)
        },
        status: if page_price(site, body).is_some() {
            MatchStatus::Found
        } else {
            MatchStatus::NotFound
        },
        message: None,
        latency_ms: None,
    }
}

/// Whether a scrape that got no page ends as blocked: the last thing
/// seen was a refusal or a challenge. What was seen in an earlier attempt
/// does not count.
pub open spec fn ends_blocked(state: ScrapeState) -> bool {
    match state.last {
        Some(Failure::Refused(_)) => true,
        Some(Failure::Challenge) => true,
        _ => false,
    }
}

/// The match of a scrape that got no page in either attempt: blocked or
/// failed by what was seen last, with that failure in words.
pub open spec fn gave_up_view(site: Seq<char>, url: Seq<char>, state: ScrapeState) -> MatchView {
    failure_view(
        site,
        url,
        if ends_blocked(state) {
            MatchStatus::Blocked
        } else {
            MatchStatus::Error
        },
        match state.last {
            Some(f) => Some(failure_text(f)),
            None => Some("request_failed"@),
        },
    )
}

/// What is to be done after an event.
///
/// A page that is no challenge ends the scrape with what was read from
/// it, and is stored. A status that is no refusal asks for the body. A
/// failure of the first attempt asks for the second, after a pause. A
/// failure of the second ends the scrape: a challenge as unsupported, the
/// others as blocked or failed.
pub open spec fn next_action(site: Seq<char>, url: Seq<char>, state: ScrapeState, event: ScrapeEvent) -> ActionView {
    match event {
        ScrapeEvent::ClientInitFailed(e) => ActionView::Finish {
            outcome: failure_view(site, url, MatchStatus::Error, Some(CLIENT_FAILURE_PREFIX@ + e@)),
            store: false,
        },
        _ => match observed(event) {
            None => match event {
                ScrapeEvent::Body(b) => ActionView::Finish {
                    outcome: page_view(site, url, b@),
                    store: true,
                },
                _ => ActionView::ReadBody,
            },
            Some(f) => if state.attempt == 0 {
                ActionView::Fetch {
                    attempt: 1,
                    delay_ms: retry_pause(f),
                    timeout_secs: RETRY_TIMEOUT_SECS,
                }
            } else if f == Failure::Challenge {
                ActionView::Finish {
                    outcome: failure_view(
                        site,
                        url,
                        MatchStatus::UnsupportedJs,
                        Some(CHALLENGE_MESSAGE@),
                    ),
                    store: false,
                }
            } else {
                ActionView::Finish {
                    outcome: gave_up_view(site, url, next_state(state, event)),
                    store: false,
                }
            },
        },
    }
}

/// Whether an action is sound: a match that it hands out is well formed,
/// priced in the one currency, with the site it was asked of and a link;
/// exactly a price or a page without one is stored.
pub open spec fn action_sound(site: Seq<char>, a: ActionView) -> bool {
    match a {
        ActionView::Finish { outcome, store } => {
            &&& outcome.well_formed()
            &&& outcome.site == site
            &&& outcome.currency == Some(CURRENCY@)
            &&& outcome.url.is_some()
            &&& outcome.latency_ms.is_none()
            &&& store <==> outcome.status == MatchStatus::Found || outcome.status
                == MatchStatus::NotFound
            &&& outcome.status != MatchStatus::Cached
        },
        _ => true,
    }
}

/// Whatever happens in whatever state, the next action is sound: a match
/// that ends the scrape with a price carries it inside the accepted range,
/// with a link, and exactly a price or a page without one is stored.
pub proof fn lemma_next_action_sound(site: Seq<char>, url: Seq<char>, state: ScrapeState, event: ScrapeEvent)
    ensures
        action_sound(site, next_action(site, url, state, event)),
{
    match event {
        ScrapeEvent::Body(b) => {
            lemma_page_price_in_range(site, b@);
        },
        _ => {},
    }
}

/// A scrape makes two attempts at most: after a failure in the second
/// attempt no request is asked for.
pub proof fn lemma_no_third_attempt(site: Seq<char>, url: Seq<char>, state: ScrapeState, event: ScrapeEvent)
    requires
        state.attempt != 0,
    ensures
        !(next_action(site, url, state, event) is Fetch),
        next_state(state, event).attempt == state.attempt,
{
}

impl ScrapeState {
    /// The state before the first attempt.
    pub fn start() -> (s: ScrapeState)
        ensures
            s.attempt == 0,
            s.last.is_none(),
    {
        ScrapeState { attempt: 0, last: None }
    }
}

/// The first thing to do in a scrape: send the request at once.
pub fn first_action() -> (a: ScrapeAction)
    ensures
        action_view(a) == (ActionView::Fetch {
            attempt: 0,
            delay_ms: 0,
            timeout_secs: FIRST_TIMEOUT_SECS,
        }),
{
    ScrapeAction::Fetch { attempt: 0, delay_ms: 0, timeout_secs: FIRST_TIMEOUT_SECS }
}

/// The text of a response body: its first 512 KiB, decoded leniently.
pub fn body_text(bytes: &[u8]) -> (r: String)
    ensures
        r@ == lossy_text(first_items(bytes@, MAX_BODY_BYTES as int)),
{
    if bytes.len() <= MAX_BODY_BYTES {
        decode_lossy(bytes)
    } else {
        let head = slice_subrange(bytes, 0, MAX_BODY_BYTES);
        proof {
            assert(head@ =~= bytes@.take(MAX_BODY_BYTES as int));
        }
        decode_lossy(head)
    }
}

/// The milliseconds between two readings of a clock that does not run
/// backwards; none where the second reading is the earlier one.
pub open spec fn elapsed_between(entered_ms: u128, returned_ms: u128) -> u128 {
    if entered_ms <= returned_ms {
        (returned_ms - entered_ms) as u128
    } else {
        0
    }
}

/// The time that a call is said to have taken is never more than the time
/// between its entry and its return.
pub proof fn lemma_latency_within_call(entered_ms: u128, returned_ms: u128)
    requires
        entered_ms <= returned_ms,
    ensures
        0 <= elapsed_between(entered_ms, returned_ms) <= returned_ms - entered_ms,
{
}

/// The milliseconds between the entry of a call and its return, both read
/// from one monotonic clock.
pub fn latency(entered_ms: u128, returned_ms: u128) -> (l: u128)
    ensures
        l == elapsed_between(entered_ms, returned_ms),
        entered_ms <= returned_ms ==> l <= returned_ms - entered_ms,
{
    if entered_ms <= returned_ms {
        returned_ms - entered_ms
    } else {
        0
    }
}

/// A match with the time that its scrape took: `entered_ms` is the clock at
/// the entry of the scrape, `returned_ms` the clock as the match is handed
/// out. Nothing else of the match changes.
pub fn stamp(outcome: SiteMatch, entered_ms: u128, returned_ms: u128) -> (r: SiteMatch)
    ensures
        r == (SiteMatch {
            latency_ms: Some(elapsed_between(entered_ms, returned_ms)),
            ..outcome
        }),
        entered_ms <= returned_ms ==> r.latency_ms.unwrap() <= returned_ms - entered_ms,
{
    SiteMatch { latency_ms: Some(latency(entered_ms, returned_ms)), ..outcome }
}

fn failure_match(site: &str, url: &str, status: MatchStatus, message: Option<String>) -> (m: SiteMatch)
    ensures
        m@ == failure_view(site@, url@, status, text_view(message)),
{
    SiteMatch {
        site: String::from_str(site),
        title: None,
        price: None,
        currency: Some(String::from_str(CURRENCY)),
        url: Some(String::from_str(url)),
        status,
        message,
        latency_ms: None,
    }
}

fn status_message(status: u16) -> (r: String)
    ensures
        r@ == STATUS_PREFIX@ + decimal_text(status as nat),
{
    let digits = number_text(status);
    let mut text = String::from_str(STATUS_PREFIX);
    text.append(digits.as_str());
    text
}

fn failure_message(f: &Failure) -> (r: String)
    ensures
        r@ == failure_text(*f),
{
    match f {
        Failure::Transport(m) => m.clone(),
        Failure::Timeout => String::from_str("timeout"),
        Failure::Refused(s) => status_message(*s),
        Failure::BodyRead(m) => m.clone(),
        Failure::Challenge => String::from_str("challenge_detected"),
    }
}

/// The match that a page of results gives.
pub fn page_match(site: &str, url: &str, body: &str) -> (m: SiteMatch)
    ensures
        m@ == page_view(site@, url@, body@),
        m@.well_formed(),
{
    let title = extract_title(body);
    let price = extract_price_from_body(site, body);
    let link = extract_result_url(site, body);
    let status = if price.is_some() {
        MatchStatus::Found
    } else {
        MatchStatus::NotFound
    };
    let shown: Option<String> = if link.is_some() {
        link
    } else {
        Some(String::from_str(url))
    };
    SiteMatch {
        site: String::from_str(site),
        title,
        price,
        currency: Some(String::from_str(CURRENCY)),
        url: shown,
        status,
        message: None,
        latency_ms: None,
    }
}

fn is_refusal_status(status: u16) -> (r: bool)
    ensures
        r == is_refusal(status),
{
    status == 403 || status == 429 || status == 503
}

fn gave_up_match(site: &str, url: &str, state: &ScrapeState) -> (m: SiteMatch)
    ensures
        m@ == gave_up_view(site@, url@, *state),
{
    let blocked: bool = match &state.last {
        Some(Failure::Refused(_)) => true,
        Some(Failure::Challenge) => true,
        _ => false,
    };
    let message: String = match &state.last {
        Some(f) => failure_message(f),
        None => String::from_str("request_failed"),
    };
    let status = if blocked {
        MatchStatus::Blocked
    } else {
        MatchStatus::Error
    };
    failure_match(site, url, status, Some(message))
}

/// One step of a scrape of `site`, whose search URL is `url`: takes the
/// state and what happened, and gives the next state and what to do.
pub fn scrape_step(site: &str, url: &str, state: ScrapeState, event: ScrapeEvent) -> (r: (
    ScrapeState,
    ScrapeAction,
))
    ensures
        r.0 == next_state(state, event),
        action_view(r.1) == next_action(site@, url@, state, event),
        action_sound(site@, action_view(r.1)),
{
    let ghost before = state;
    let ghost seen = event;
    let attempt: usize = state.attempt;
    let failure: Failure = match event {
        ScrapeEvent::ClientInitFailed(e) => {
            let mut message = String::from_str(CLIENT_FAILURE_PREFIX);
            message.append(e.as_str());
            let outcome = failure_match(site, url, MatchStatus::Error, Some(message));
            return (state, ScrapeAction::Finish { outcome, store: false });
        },
        ScrapeEvent::TransportError(m) => Failure::Transport(m),
        ScrapeEvent::Timeout => Failure::Timeout,
        ScrapeEvent::Status(s) => {
            if !is_refusal_status(s) {
                return (state, ScrapeAction::ReadBody);
            }
            Failure::Refused(s)
        },
        ScrapeEvent::BodyError(m) => Failure::BodyRead(m),
        ScrapeEvent::Body(b) => {
            if !is_bot_challenge(b.as_str()) {
                let outcome = page_match(site, url, b.as_str());
                return (state, ScrapeAction::Finish { outcome, store: true });
            }
            Failure::Challenge
        },
    };
    if attempt == 0 {
        let delay_ms: u64 = match &failure {
            Failure::Transport(_) => TRANSPORT_PAUSE_MS,
            Failure::Timeout => TRANSPORT_PAUSE_MS,
            Failure::Refused(_) => REFUSAL_PAUSE_MS,
            Failure::BodyRead(_) => BODY_PAUSE_MS,
            Failure::Challenge => REFUSAL_PAUSE_MS,
        };
        let next = ScrapeState { attempt: 1, last: Some(failure) };
        return (next, ScrapeAction::Fetch { attempt: 1, delay_ms, timeout_secs: RETRY_TIMEOUT_SECS });
    }
    let challenged: bool = match &failure {
        Failure::Challenge => true,
        _ => false,
    };
    let next = ScrapeState { attempt, last: Some(failure) };
    let outcome = if challenged {
        failure_match(
            site,
            url,
            MatchStatus::UnsupportedJs,
            Some(String::from_str(CHALLENGE_MESSAGE)),
        )
    } else {
        gave_up_match(site, url, &next)
    };
    (next, ScrapeAction::Finish { outcome, store: false })
}

} // verus!
