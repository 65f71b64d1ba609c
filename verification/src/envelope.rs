//! What surrounds a run: its id, the answer's envelope, request errors and
//! the frames of an event stream.

use vstd::prelude::*;
use vstd::string::{StringExecFns, StringSliceAdditionalSpecFns};
use crate::model::{ItemResult, QuoteResponse};
use crate::text::text_eq;

verus! {

/// What opens a frame of an event stream.
pub const FRAME_PREFIX: &'static str = "data: ";

/// What closes a frame of an event stream.
pub const FRAME_END: &'static str = "\n\n";

/// How many frames may wait for a slow reader.
pub const STREAM_BUFFER_FRAMES: usize = 64;

/// Why a request was not served.
#[derive(Clone, Copy, Debug, PartialEq, Eq, Structural)]
pub enum RequestError {
    /// The request was no POST.
    MethodNotAllowed,
    /// The body was no valid request.
    InvalidJson,
    /// The run failed unexpectedly.
    QuoteFailed,
}

/// The kinds of events in a stream, in the order in which a run sends
/// them: one `Started`, then for each item its `Match` events and one
/// `ItemDone`, then one `Done`.
#[derive(Clone, Copy, Debug, PartialEq, Eq, Structural)]
pub enum StreamEvent {
    Started,
    Match,
    ItemDone,
    Done,
    Error,
}

impl RequestError {
    pub open spec fn status_code(self) -> u16 {
        match self {
            RequestError::MethodNotAllowed => 405,
            RequestError::InvalidJson => 400,
            RequestError::QuoteFailed => 500,
        }
    }

    pub open spec fn label_text(self) -> Seq<char> {
        match self {
            RequestError::MethodNotAllowed => "method_not_allowed"@,
            RequestError::InvalidJson => "invalid_json"@,
            RequestError::QuoteFailed => "quote_failed"@,
        }
    }

    /// The HTTP status that the answer carries.
    pub fn http_status(&self) -> (r: u16)
        ensures
            r == self.status_code(),
    {
        match self {
            RequestError::MethodNotAllowed => 405,
            RequestError::InvalidJson => 400,
            RequestError::QuoteFailed => 500,
        }
    }

    /// The error as the answer names it.
    pub fn label(&self) -> (r: &'static str)
        ensures
            r@ == self.label_text(),
    {
        match self {
            RequestError::MethodNotAllowed => "method_not_allowed",
            RequestError::InvalidJson => "invalid_json",
            RequestError::QuoteFailed => "quote_failed",
        }
    }
}

impl StreamEvent {
    pub open spec fn label_text(self) -> Seq<char> {
        match self {
            StreamEvent::Started => "started"@,
            StreamEvent::Match => "match"@,
            StreamEvent::ItemDone => "item_done"@,
            StreamEvent::Done => "done"@,
            StreamEvent::Error => "error"@,
        }
    }

    /// The value of an event's `type` member.
    pub fn label(&self) -> (r: &'static str)
        ensures
            r@ == self.label_text(),
    {
        match self {
            StreamEvent::Started => "started",
            StreamEvent::Match => "match",
            StreamEvent::ItemDone => "item_done",
            StreamEvent::Done => "done",
            StreamEvent::Error => "error",
        }
    }
}

/// Checks the method of a request: only POST is served.
pub fn check_method(method: &str) -> (r: Result<(), RequestError>)
    ensures
        r == if method@ == "POST"@ {
            Ok::<(), RequestError>(())
        } else {
            Err::<(), RequestError>(RequestError::MethodNotAllowed)
        },
{
    if text_eq(method, "POST") {
        Ok(())
    } else {
        Err(RequestError::MethodNotAllowed)
    }
}

/// One frame of an event stream around `payload`.
pub fn sse_line(payload: &str) -> (r: String)
    ensures
        r@ == FRAME_PREFIX@ + payload@ + FRAME_END@,
{
    let mut frame = String::from_str(FRAME_PREFIX);
    frame.append(payload);
    frame.append(FRAME_END);
    frame
}

/// The id of a run: the caller's where the request names one, else the fresh one.
pub fn choose_run_id(requested: Option<String>, fresh: String) -> (r: String)
    ensures
        r == match requested {
            Some(id) => id,
            None => fresh,
        },
{
    match requested {
        Some(id) => id,
        None => fresh,
    }
}

/// The answer to a run.
pub fn build_response(run_id: String, started_at: String, duration_ms: u128, items: Vec<ItemResult>) -> (r:
    QuoteResponse)
    ensures
        r.run_id == run_id,
        r.started_at == started_at,
        r.duration_ms == duration_ms,
        r.items == items,
{
    QuoteResponse { run_id, started_at, duration_ms, items }
}

} // verus!
