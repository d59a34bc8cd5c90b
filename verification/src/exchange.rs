//! What passes between the pipeline and its caller: the request as the
//! pipeline reads it, the responses it decides on, the step to take, the
//! outcome of forwarding and what it settles into.

use vstd::prelude::*;
use crate::logger::LogRecord;
use crate::logger::RequestLog;
use crate::text::text_of;

verus! {

/// What the pipeline reads of an inbound request.
#[derive(Debug, Clone)]
pub struct Request {
    /// The `Host` header as sent, port included; empty when there is none.
    pub host: String,
    /// The request method, as on the wire.
    pub method: String,
    /// The request path.
    pub path: String,
    /// The raw query string, without the question mark, if there is one.
    pub query: Option<String>,
    /// The client's address: the identity that the rate limiter counts.
    pub client_ip: String,
    /// The `User-Agent` header, when sent.
    pub user_agent: Option<String>,
    /// The `Referer` header, when sent.
    pub referer: Option<String>,
}

/// A request as plain values.
pub ghost struct RequestView {
    pub host: Seq<char>,
    pub method: Seq<char>,
    pub path: Seq<char>,
    pub query: Option<Seq<char>>,
    pub client_ip: Seq<char>,
    pub user_agent: Option<Seq<char>>,
    pub referer: Option<Seq<char>>,
}

impl View for Request {
    type V = RequestView;

    open spec fn view(&self) -> RequestView {
        RequestView {
            host: self.host@,
            method: self.method@,
            path: self.path@,
            query: text_of(self.query),
            client_ip: self.client_ip@,
            user_agent: text_of(self.user_agent),
            referer: text_of(self.referer),
        }
    }
}

/// A response that the pipeline decided on.
#[derive(Debug, Clone, PartialEq, Eq)]
pub struct Response {
    /// The HTTP status.
    pub status: u16,
    /// Whether the response carries the header `X-Cache: HIT`.
    pub cache_hit: bool,
    /// The body.
    pub body: Vec<u8>,
}

/// A response as plain values.
pub ghost struct ResponseView {
    pub status: u16,
    pub cache_hit: bool,
    pub body: Seq<u8>,
}

impl View for Response {
    type V = ResponseView;

    open spec fn view(&self) -> ResponseView {
        ResponseView { status: self.status, cache_hit: self.cache_hit, body: self.body@ }
    }
}

/// What to do with a request once it has been admitted, routed and looked up.
#[derive(Debug)]
pub enum Step {
    /// Answer the client now; hand the record, if there is one, to the log.
    Respond { response: Response, log: Option<RequestLog> },
    /// Send the request to `url` with its method, headers and body, but
    /// without the headers named in `drop_headers`, then settle the outcome.
    Forward { url: String, drop_headers: Vec<String> },
}

/// A step as plain values.
pub ghost enum StepView {
    Respond { response: ResponseView, log: Option<LogRecord> },
    Forward { url: Seq<char>, drop_headers: Seq<Seq<char>> },
}

impl View for Step {
    type V = StepView;

    open spec fn view(&self) -> StepView {
        match *self {
            Step::Respond { response, log } => StepView::Respond {
                response: response@,
                log: match log {
                    Some(l) => Some(l@),
                    None => None,
                },
            },
            Step::Forward { url, drop_headers } => StepView::Forward {
                url: url@,
                drop_headers: drop_headers@.map_values(|h: String| h@),
            },
        }
    }
}

/// How forwarding a request ended.
#[derive(Debug, Clone)]
pub enum Upstream {
    /// The origin answered with `status`, and `body` was read to its end.
    Answered { status: u16, body: Vec<u8> },
    /// The origin could not be reached, timed out, or broke off its answer.
    Failed,
}

/// An upstream outcome as plain values.
pub ghost enum UpstreamView {
    Answered { status: u16, body: Seq<u8> },
    Failed,
}

impl View for Upstream {
    type V = UpstreamView;

    open spec fn view(&self) -> UpstreamView {
        match *self {
            Upstream::Answered { status, body } => UpstreamView::Answered { status, body: body@ },
            Upstream::Failed => UpstreamView::Failed,
        }
    }
}

/// A body to put into the cache.
#[derive(Debug, Clone)]
pub struct CacheWrite {
    /// The cache key of the request.
    pub key: String,
    /// The body to serve under the key.
    pub body: Vec<u8>,
    /// Seconds for which to serve it.
    pub ttl_seconds: u64,
}

/// A cache write as plain values.
pub ghost struct CacheWriteView {
    pub key: Seq<char>,
    pub body: Seq<u8>,
    pub ttl_seconds: u64,
}

impl View for CacheWrite {
    type V = CacheWriteView;

    open spec fn view(&self) -> CacheWriteView {
        CacheWriteView { key: self.key@, body: self.body@, ttl_seconds: self.ttl_seconds }
    }
}

/// A forwarded request, settled: what to answer, what to log, and what to
/// cache, if anything.
#[derive(Debug)]
pub struct Completed {
    /// The status and body for the client. The origin's headers go with it
    /// when the origin answered.
    pub response: Response,
    /// The record of the request.
    pub log: RequestLog,
    /// The body to cache, for a `GET` that the origin answered with `200`.
    pub store: Option<CacheWrite>,
}

/// A settled request as plain values.
pub ghost struct CompletedView {
    pub response: ResponseView,
    pub log: LogRecord,
    pub store: Option<CacheWriteView>,
}

impl View for Completed {
    type V = CompletedView;

    open spec fn view(&self) -> CompletedView {
        CompletedView {
            response: self.response@,
            log: self.log@,
            store: match self.store {
                Some(w) => Some(w@),
                None => None,
            },
        }
    }
}

} // verus!
