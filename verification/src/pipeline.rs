//! The request pipeline: what the proxy does with one request, before and
//! after the upstream origin is asked.
//!
//! A request is admitted by the rate limiter, routed by its virtual host,
//! looked up in the cache when it is a `GET`, and otherwise handed to the
//! caller to forward. When the origin has answered or failed, the outcome is
//! settled into the response, the log record and, for a `GET` answered with
//! `200`, a body to cache. The caller does the network part in between.

use vstd::prelude::*;
use vstd::string::StrSliceExecFns;
use vstd::string::StringExecFns;
use vstd::utf8::encode_utf8;
use crate::cache::after_lookup;
use crate::cache::after_store;
use crate::cache::cache_key;
use crate::cache::expiry;
use crate::cache::copy_bytes;
use crate::cache::served;
use crate::cache::CachedBody;
use crate::cache::MemoryCache;
use crate::clock::elapsed_millis;
use crate::clock::millis_between;
use crate::clock::Clock;
use crate::clock::Moment;
use crate::config::Config;
use crate::exchange::CacheWrite;
use crate::exchange::CacheWriteView;
use crate::exchange::Completed;
use crate::exchange::CompletedView;
use crate::exchange::Request;
use crate::exchange::RequestView;
use crate::exchange::Response;
use crate::exchange::ResponseView;
use crate::exchange::Step;
use crate::exchange::StepView;
use crate::exchange::Upstream;
use crate::exchange::UpstreamView;
use crate::logger::bare_record;
use crate::logger::LogRecord;
use crate::logger::RequestLog;
use crate::rate_limiter::LimiterState;
use crate::rate_limiter::RateLimiter;
use crate::route_table::routes_of;
use crate::route_table::RouteTable;
use crate::status;
use crate::text::before_colon;
use crate::text::text_of;
use crate::text::up_to_colon;

verus! {

/// Seconds for which a cached body is served, unless set otherwise.
pub const DEFAULT_TTL_SECONDS: u64 = 300;

/// The window, in seconds, over which a limit per minute is counted.
pub const LIMIT_WINDOW_SECONDS: u64 = 60;

/// The virtual host that a request addresses: its `Host` header without the
/// port.
pub open spec fn virtual_host(req: RequestView) -> Seq<char> {
    before_colon(req.host)
}

/// The cache key of a request.
pub open spec fn request_key(req: RequestView) -> Seq<char> {
    cache_key(virtual_host(req), req.path, req.query)
}

/// Whether `method` is `GET`, the one method whose responses are cached.
pub open spec fn is_get(method: Seq<char>) -> bool {
    method == "GET"@
}

/// Whether the origin answered with `200`.
pub open spec fn answered_ok(outcome: UpstreamView) -> bool {
    match outcome {
        UpstreamView::Answered { status, .. } => status == status::OK,
        UpstreamView::Failed => false,
    }
}

/// The URL that a request is forwarded to: the origin, the path and, when
/// there is a query string, a question mark and the query.
pub open spec fn upstream_url(origin: Seq<char>, path: Seq<char>, query: Option<Seq<char>>) -> Seq<
    char,
> {
    origin + path + match query {
        Some(q) => "?"@ + q,
        None => Seq::<char>::empty(),
    }
}

/// The headers of the inbound request that are not forwarded: `host`, so
/// that the header on the wire names the origin.
pub open spec fn dropped_headers() -> Seq<Seq<char>> {
    seq!["host"@]
}

/// A plain-text response with the given status.
pub open spec fn text_response(status: u16, text: Seq<char>) -> ResponseView {
    ResponseView { status, cache_hit: false, body: encode_utf8(text) }
}

/// The response to a client over its rate limit.
pub open spec fn too_many_requests() -> ResponseView {
    text_response(status::TOO_MANY_REQUESTS, "Too Many Requests"@)
}

/// The body of the response for a host that is not routed; it names the host.
pub open spec fn not_configured(host: Seq<char>) -> Seq<char> {
    "Domain '"@ + host + "' not configured"@
}

/// The response for a host that is not routed.
pub open spec fn not_found(host: Seq<char>) -> ResponseView {
    text_response(status::NOT_FOUND, not_configured(host))
}

/// The response when the upstream URL cannot be formed.
pub open spec fn bad_request() -> ResponseView {
    text_response(status::BAD_REQUEST, "Bad Request"@)
}

/// The response when forwarding failed.
pub open spec fn bad_gateway() -> ResponseView {
    text_response(status::BAD_GATEWAY, "Bad Gateway"@)
}

/// The response served from the cache.
pub open spec fn from_cache(body: Seq<u8>) -> ResponseView {
    ResponseView { status: status::OK, cache_hit: true, body }
}

/// The record of a request that no body was sent for: the status, the time it
/// took and the client's address.
pub open spec fn failure_record(req: RequestView, status: u16, started: u64, at: Moment) -> LogRecord {
    LogRecord {
        ip_address: Some(req.client_ip),
        ..bare_record(
            virtual_host(req),
            req.path,
            req.method,
            status,
            elapsed_millis(started, at.now) as u128,
            at.timestamp,
        )
    }
}

/// The record of a request that a body of `bytes` bytes was sent for: as
/// [`failure_record`], with the byte count, the user agent and the referer.
pub open spec fn served_record(
    req: RequestView,
    status: u16,
    bytes: nat,
    started: u64,
    at: Moment,
) -> LogRecord {
    LogRecord {
        bytes_sent: bytes as u64,
        user_agent: req.user_agent,
        referer: req.referer,
        ..failure_record(req, status, started, at)
    }
}

/// Whether the text is accepted as the target of a request by the HTTP
/// library that forwards it.
pub uninterp spec fn uri_accepts(text: Seq<char>) -> bool;

/// Whether `text` parses as a request target.
///
/// Trusted: stands for `str::parse::<http::Uri>` (the `Uri` of the `http`
/// crate, as `axum` hands it on), and says only that the answer is a function
/// of the text: `true` exactly when parsing returns `Ok`.
#[verifier::external_body]
fn parses_as_uri(text: &str) -> (accepted: bool)
    ensures
        accepted == uri_accepts(text@),
{
    text.parse::<axum::http::Uri>().is_ok()
}

/// Whether `method` is `GET`.
fn method_is_get(method: &String) -> (get: bool)
    ensures
        get == is_get(method@),
{
    let get = String::from_str("GET");
    *method == get
}

/// What the step after routing and lookup is, given whether the upstream URL
/// is acceptable: forward to it, or refuse the request as malformed.
pub open spec fn forward_or_refuse(url: Seq<char>, acceptable: bool) -> StepView {
    if acceptable {
        StepView::Forward { url, drop_headers: dropped_headers() }
    } else {
        StepView::Respond { response: bad_request(), log: None }
    }
}

/// The proxy's shared state as plain values.
pub ghost struct ProxyState {
    /// The route table: origin by host.
    pub routes: Map<Seq<char>, Seq<char>>,
    /// The response cache: entry by key.
    pub cache: Map<Seq<char>, CachedBody>,
    /// The rate limiter, where one is configured.
    pub limiter: Option<LimiterState>,
    /// Seconds for which a cached body is served.
    pub cache_ttl: u64,
}

impl ProxyState {
    /// Whether the rate limiter admits the request at `now`. Without a
    /// limiter every request is admitted.
    pub open spec fn admits(self, req: RequestView, now: u64) -> bool {
        match self.limiter {
            Some(l) => l.admits(req.client_ip, now),
            None => true,
        }
    }

    /// The state once the rate limiter has seen the request.
    pub open spec fn after_admission(self, req: RequestView, now: u64) -> ProxyState {
        ProxyState {
            limiter: match self.limiter {
                Some(l) => Some(l.after_request(req.client_ip, now)),
                None => None,
            },
            ..self
        }
    }

    /// Whether the request is answered from the cache at `now`: it is a
    /// `GET` and an entry under its key has not expired.
    pub open spec fn hits(self, req: RequestView, now: u64) -> bool {
        is_get(req.method) && served(self.cache, request_key(req), now)
    }

    /// The state once the cache has been asked for the request: a `GET` that
    /// misses removes what was stored under its key.
    pub open spec fn after_cache_lookup(self, req: RequestView, now: u64) -> ProxyState {
        if is_get(req.method) {
            ProxyState { cache: after_lookup(self.cache, request_key(req), now), ..self }
        } else {
            self
        }
    }

    /// The first half of the pipeline: the state it leaves and the step it
    /// decides on, for a request that arrived at `started` and is handled at
    /// the moment `at`.
    ///
    /// In this order: a client over its limit is answered `429` and nothing
    /// else happens; a host that is not routed is answered `404` and logged;
    /// a `GET` whose body is cached is answered from the cache and logged;
    /// anything else is forwarded to the origin of its host, or answered
    /// `400` when the upstream URL is not acceptable.
    pub open spec fn begin(self, req: RequestView, started: u64, at: Moment) -> (
        ProxyState,
        StepView,
    ) {
        let host = virtual_host(req);
        let counted = self.after_admission(req, at.now);
        if !self.admits(req, at.now) {
            (counted, StepView::Respond { response: too_many_requests(), log: None })
        } else if !self.routes.contains_key(host) {
            (
                counted,
                StepView::Respond {
                    response: not_found(host),
                    log: Some(failure_record(req, status::NOT_FOUND, started, at)),
                },
            )
        } else if self.hits(req, at.now) {
            let body = self.cache[request_key(req)].body;
            (
                counted,
                StepView::Respond {
                    response: from_cache(body),
                    log: Some(served_record(req, status::OK, body.len(), started, at)),
                },
            )
        } else {
            let url = upstream_url(self.routes[host], req.path, req.query);
            (counted.after_cache_lookup(req, at.now), forward_or_refuse(url, uri_accepts(url)))
        }
    }

    /// The state once the rate limiter, where there is one, has been swept
    /// at `now`.
    pub open spec fn swept(self, now: u64) -> ProxyState {
        ProxyState {
            limiter: match self.limiter {
                Some(l) => Some(l.swept(now)),
                None => None,
            },
            ..self
        }
    }

    /// The state once `write` has been stored at `now`.
    pub open spec fn after_write(self, write: CacheWriteView, now: u64) -> ProxyState {
        ProxyState {
            cache: after_store(self.cache, write.key, write.body, write.ttl_seconds, now),
            ..self
        }
    }

    /// The second half of the pipeline: the state it leaves, with what it
    /// answers and logs, for the outcome of forwarding a request.
    pub open spec fn finish(self, req: RequestView, started: u64, outcome: UpstreamView, at: Moment) -> (
        ProxyState,
        CompletedView,
    ) {
        let done = settled(req, started, outcome, at, self.cache_ttl);
        match done.store {
            Some(write) => (self.after_write(write, at.now), done),
            None => (self, done),
        }
    }
}

/// What the outcome of forwarding a request settles into.
///
/// A failure is answered `502` and logged with no bytes. An answer is passed
/// on with its status and body and logged with the body's length; the body
/// of a `GET` answered with `200` is also to be cached for `ttl_seconds`.
pub open spec fn settled(
    req: RequestView,
    started: u64,
    outcome: UpstreamView,
    at: Moment,
    ttl_seconds: u64,
) -> CompletedView {
    match outcome {
        UpstreamView::Failed => CompletedView {
            response: bad_gateway(),
            log: failure_record(req, status::BAD_GATEWAY, started, at),
            store: None,
        },
        UpstreamView::Answered { status, body } => CompletedView {
            response: ResponseView { status, cache_hit: false, body },
            log: served_record(req, status, body.len(), started, at),
            store: if is_get(req.method) && status == status::OK {
                Some(CacheWriteView { key: request_key(req), body, ttl_seconds })
            } else {
                None
            },
        },
    }
}

/// The URL to forward a request to.
pub fn build_upstream_url(origin: &str, path: &str, query: Option<&str>) -> (url: String)
    ensures
        url@ == upstream_url(
            origin@,
            path@,
            match query {
                Some(q) => Some(q@),
                None => None,
            },
        ),
{
    let mut url = String::from_str(origin);
    url.append(path);
    if let Some(q) = query {
        url.append("?");
        url.append(q);
    }
    url
}

/// A plain-text response.
fn plain(status: u16, text: &str) -> (response: Response)
    ensures
        response@ == text_response(status, text@),
{
    Response { status, cache_hit: false, body: text.as_bytes_vec() }
}

/// The optional string as a slice.
fn as_slice(text: &Option<String>) -> (slice: Option<&str>)
    ensures
        match slice {
            Some(s) => text_of(*text) == Some(s@),
            None => text_of(*text) == None::<Seq<char>>,
        },
{
    match text {
        Some(t) => Some(t.as_str()),
        None => None,
    }
}

/// Builds [`failure_record`].
fn record_failure(req: &Request, status: u16, started: u64, at: Moment) -> (log: RequestLog)
    ensures
        log@ == failure_record(req@, status, started, at),
{
    RequestLog::new(
        up_to_colon(req.host.as_str()),
        req.path.clone(),
        req.method.clone(),
        status,
        millis_between(started, at.now),
        at.timestamp,
    ).with_ip(req.client_ip.clone())
}

/// Builds [`served_record`].
fn record_served(req: &Request, status: u16, bytes: usize, started: u64, at: Moment) -> (log:
    RequestLog)
    ensures
        log@ == served_record(req@, status, bytes as nat, started, at),
{
    let mut log = record_failure(req, status, started, at);
    match &req.user_agent {
        Some(agent) => {
            log = log.with_user_agent(agent.clone());
        },
        None => {},
    }
    match &req.referer {
        Some(referer) => {
            log = log.with_referer(referer.clone());
        },
        None => {},
    }
    log.with_bytes(bytes as u64)
}

/// Decides the step after routing and lookup, given whether the upstream URL
/// is acceptable.
pub fn plan_forward(url: String, acceptable: bool) -> (step: Step)
    ensures
        step@ == forward_or_refuse(url@, acceptable),
{
    if acceptable {
        let mut drop_headers: Vec<String> = Vec::new();
        drop_headers.push(String::from_str("host"));
        assert(drop_headers@.map_values(|h: String| h@) =~= dropped_headers());
        Step::Forward { url, drop_headers }
    } else {
        Step::Respond { response: plain(status::BAD_REQUEST, "Bad Request"), log: None }
    }
}

/// Settles the outcome of forwarding `req`, which arrived at `started`, at
/// the moment `at`. Bodies to cache are to be kept for `ttl_seconds`.
pub fn settle(req: &Request, started: u64, outcome: Upstream, at: Moment, ttl_seconds: u64) -> (done:
    Completed)
    ensures
        done@ == settled(req@, started, outcome@, at, ttl_seconds),
{
    match outcome {
        Upstream::Failed => Completed {
            response: plain(status::BAD_GATEWAY, "Bad Gateway"),
            log: record_failure(req, status::BAD_GATEWAY, started, at),
            store: None,
        },
        Upstream::Answered { status, body } => {
            let log = record_served(req, status, body.len(), started, at);
            let store = if method_is_get(&req.method) && status == status::OK {
                let host = up_to_colon(req.host.as_str());
                let key = MemoryCache::generate_cache_key(
                    host.as_str(),
                    req.path.as_str(),
                    as_slice(&req.query),
                );
                Some(CacheWrite { key, body: copy_bytes(&body), ttl_seconds })
            } else {
                None
            };
            Completed { response: Response { status, cache_hit: false, body }, log, store }
        },
    }
}

/// A reverse proxy's shared state: the route table, the response cache and,
/// where one is configured, the rate limiter.
pub struct Proxy {
    /// Which origin serves which host.
    pub routes: RouteTable,
    /// The cached response bodies.
    pub cache: MemoryCache,
    /// The rate limiter; `None` admits every request and keeps no state.
    pub limiter: Option<RateLimiter>,
    /// Seconds for which a cached body is served.
    pub cache_ttl: u64,
    /// The clock that times requests, cache entries and rate-limit windows.
    pub clock: Clock,
}

impl View for Proxy {
    type V = ProxyState;

    open spec fn view(&self) -> ProxyState {
        ProxyState {
            routes: self.routes@,
            cache: self.cache@,
            limiter: match self.limiter {
                Some(l) => Some(l@),
                None => None,
            },
            cache_ttl: self.cache_ttl,
        }
    }
}

impl Proxy {
    /// A proxy over `routes` with an empty cache whose entries live for
    /// `cache_ttl` seconds, and with `limiter` to admit requests.
    pub fn new(routes: RouteTable, limiter: Option<RateLimiter>, cache_ttl: u64) -> (proxy: Proxy)
        ensures
            proxy@ == (ProxyState {
                routes: routes@,
                cache: Map::empty(),
                limiter: match limiter {
                    Some(l) => Some(l@),
                    None => None,
                },
                cache_ttl,
            }),
    {
        Proxy { routes, cache: MemoryCache::new(), limiter, cache_ttl, clock: Clock::new() }
    }

    /// The proxy that `config` asks for: the enabled domains routed, the cache
    /// empty with the default time to live, and a rate limiter over one
    /// minute where a limit per minute is set.
    pub fn from_config(config: &Config) -> (proxy: Proxy)
        ensures
            proxy@ == (ProxyState {
                routes: routes_of(config.domains@),
                cache: Map::empty(),
                limiter: match config.proxy.rate_limit_per_minute {
                    Some(limit) => Some(
                        LimiterState {
                            windows: Map::empty(),
                            limit,
                            window_seconds: LIMIT_WINDOW_SECONDS,
                        },
                    ),
                    None => None,
                },
                cache_ttl: DEFAULT_TTL_SECONDS,
            }),
    {
        let limiter = match config.proxy.rate_limit_per_minute {
            Some(limit) => Some(RateLimiter::new(limit, LIMIT_WINDOW_SECONDS)),
            None => None,
        };
        Proxy::new(RouteTable::from_domains(&config.domains), limiter, DEFAULT_TTL_SECONDS)
    }

    /// The present reading of the proxy's monotonic clock: what to pass as
    /// `started` for a request that arrives now.
    pub fn started(&self) -> u64 {
        self.clock.now()
    }

    /// Runs the first half of the pipeline for `req`, which arrived at
    /// `started`, at the moment `at`.
    pub fn begin_at(&mut self, req: &Request, started: u64, at: Moment) -> (step: Step)
        ensures
            (final(self)@, step@) == old(self)@.begin(req@, started, at),
    {
        let admitted = match &mut self.limiter {
            Some(limiter) => limiter.allow(req.client_ip.as_str(), at.now),
            None => true,
        };
        if !admitted {
            return Step::Respond {
                response: plain(status::TOO_MANY_REQUESTS, "Too Many Requests"),
                log: None,
            };
        }
        let host = up_to_colon(req.host.as_str());
        let origin = match self.routes.resolve(host.as_str()) {
            Some(origin) => origin,
            None => {
                let mut text = String::from_str("Domain '");
                text.append(host.as_str());
                text.append("' not configured");
                return Step::Respond {
                    response: plain(status::NOT_FOUND, text.as_str()),
                    log: Some(record_failure(req, status::NOT_FOUND, started, at)),
                };
            },
        };
        if method_is_get(&req.method) {
            let key = MemoryCache::generate_cache_key(
                host.as_str(),
                req.path.as_str(),
                as_slice(&req.query),
            );
            match self.cache.get(key.as_str(), at.now) {
                Some(body) => {
                    let log = record_served(req, status::OK, body.len(), started, at);
                    return Step::Respond {
                        response: Response { status: status::OK, cache_hit: true, body },
                        log: Some(log),
                    };
                },
                None => {},
            }
        }
        let url = build_upstream_url(origin.as_str(), req.path.as_str(), as_slice(&req.query));
        let acceptable = parses_as_uri(url.as_str());
        plan_forward(url, acceptable)
    }

    /// Runs the first half of the pipeline for `req`, which arrived at
    /// `started`, at the present moment.
    pub fn begin(&mut self, req: &Request, started: u64) -> (step: Step)
        ensures
            exists|at: Moment| (final(self)@, step@) == old(self)@.begin(req@, started, at),
    {
        let at = self.clock.read();
        self.begin_at(req, started, at)
    }

    /// Sweeps the rate limiter, where there is one, at the instant `now`:
    /// the identities that have been idle for more than two windows are
    /// forgotten.
    pub fn sweep_at(&mut self, now: u64)
        ensures
            final(self)@ == old(self)@.swept(now),
    {
        match &mut self.limiter {
            Some(limiter) => limiter.cleanup(now),
            None => {},
        }
    }

    /// Sweeps the rate limiter, where there is one, at the present instant.
    pub fn sweep(&mut self)
        ensures
            exists|now: u64| final(self)@ == old(self)@.swept(now),
    {
        let now = self.clock.now();
        self.sweep_at(now)
    }

    /// Stores a body to cache at the instant `now`.
    pub fn store(&mut self, write: CacheWrite, now: u64)
        ensures
            final(self)@ == old(self)@.after_write(write@, now),
    {
        self.cache.set(write.key, write.body, write.ttl_seconds, now);
    }

    /// Runs the second half of the pipeline at the moment `at`: settles the
    /// outcome of forwarding `req`, which arrived at `started`, and stores
    /// what is to be cached.
    pub fn finish_at(&mut self, req: &Request, started: u64, outcome: Upstream, at: Moment) -> (done:
        Completed)
        ensures
            (final(self)@, done@) == old(self)@.finish(req@, started, outcome@, at),
    {
        let done = settle(req, started, outcome, at, self.cache_ttl);
        match &done.store {
            Some(write) => {
                self.cache.set(
                    write.key.clone(),
                    copy_bytes(&write.body),
                    write.ttl_seconds,
                    at.now,
                );
            },
            None => {},
        }
        done
    }

    /// Runs the second half of the pipeline at the present moment.
    pub fn finish(&mut self, req: &Request, started: u64, outcome: Upstream) -> (done: Completed)
        ensures
            exists|at: Moment|
                (final(self)@, done@) == old(self)@.finish(req@, started, outcome@, at),
    {
        let at = self.clock.read();
        self.finish_at(req, started, outcome, at)
    }
}

/// The response for a host that is not routed names the host: the host
/// stands in the text of the body, after the first eight characters.
pub proof fn law_not_found_names_the_host(host: Seq<char>)
    ensures
        not_found(host).status == status::NOT_FOUND,
        not_found(host).body == encode_utf8(not_configured(host)),
        not_configured(host).subrange(8, 8 + host.len() as int) == host,
{
    reveal_strlit("Domain '");
    reveal_strlit("' not configured");
}

/// A request for a host that is not in the route table is answered `404`
/// with a body that names the host, provided the rate limiter admits it
/// (a client over its limit is answered `429` before the host is looked at).
pub proof fn law_unrouted_host_is_not_found(
    state: ProxyState,
    req: RequestView,
    started: u64,
    at: Moment,
)
    requires
        !state.routes.contains_key(virtual_host(req)),
        state.admits(req, at.now),
    ensures
        state.begin(req, started, at).1 == (StepView::Respond {
            response: not_found(virtual_host(req)),
            log: Some(failure_record(req, status::NOT_FOUND, started, at)),
        }),
        state.begin(req, started, at).0.routes == state.routes,
        state.begin(req, started, at).0.cache == state.cache,
{
}

/// A request for a routed host that is not answered from the cache is
/// forwarded to the origin of the host followed by the path and, when there
/// is one, a question mark and the query string, and the inbound `Host`
/// header is not sent along. This holds of every request that the rate
/// limiter admits and whose upstream URL is acceptable.
pub proof fn law_routed_miss_is_forwarded(
    state: ProxyState,
    req: RequestView,
    started: u64,
    at: Moment,
)
    requires
        state.routes.contains_key(virtual_host(req)),
        !state.hits(req, at.now),
        state.admits(req, at.now),
        uri_accepts(upstream_url(state.routes[virtual_host(req)], req.path, req.query)),
    ensures
        state.begin(req, started, at).1 == (StepView::Forward {
            url: upstream_url(state.routes[virtual_host(req)], req.path, req.query),
            drop_headers: seq!["host"@],
        }),
{
}

/// What a `GET` was answered with `200` is served from the cache until its
/// time to live has run out, and not after.
///
/// Let the outcome `200` with `body` of a `GET` request be settled at the
/// moment `stored`. Then the same request, handled at a moment `at` by a
/// proxy in the state that was left, admitted by the rate limiter and with
/// its host still routed,
/// - is answered `200` with `body` and the header `X-Cache: HIT` when `at`
///   is before `stored` plus the time to live, and the cache stays as it is,
///   so that the next such request is answered alike;
/// - is not answered from the cache when `at` is at or after that instant:
///   it is forwarded again (or refused, where its upstream URL is not
///   acceptable).
pub proof fn law_cached_body_is_served_until_expiry(
    state: ProxyState,
    req: RequestView,
    body: Seq<u8>,
    arrived: u64,
    stored: Moment,
    started: u64,
    at: Moment,
)
    requires
        is_get(req.method),
    ensures
        ({
            let settled = state.finish(
                req,
                arrived,
                UpstreamView::Answered { status: status::OK, body },
                stored,
            ).0;
            let expires = expiry(stored.now, state.cache_ttl);
            let url = upstream_url(settled.routes[virtual_host(req)], req.path, req.query);
            settled.admits(req, at.now) && settled.routes.contains_key(virtual_host(req)) ==> {
                &&& at.now < expires ==> settled.begin(req, started, at).1 == (StepView::Respond {
                    response: ResponseView { status: status::OK, cache_hit: true, body },
                    log: Some(served_record(req, status::OK, body.len(), started, at)),
                })
                &&& at.now < expires ==> settled.begin(req, started, at).0.cache == settled.cache
                &&& at.now >= expires ==> settled.begin(req, started, at).1 == forward_or_refuse(
                    url,
                    uri_accepts(url),
                )
            }
        }),
{
}

/// A response is cached only for a `GET` answered with `200`: the outcome of
/// any other method or status leaves the cache as it was.
pub proof fn law_only_successful_gets_are_cached(
    state: ProxyState,
    req: RequestView,
    started: u64,
    outcome: UpstreamView,
    at: Moment,
)
    requires
        !(is_get(req.method) && answered_ok(outcome)),
    ensures
        state.finish(req, started, outcome, at).0 == state,
{
}

/// A request that is not a `GET` neither reads nor changes the cache.
pub proof fn law_other_methods_bypass_the_cache(
    state: ProxyState,
    req: RequestView,
    started: u64,
    at: Moment,
)
    requires
        !is_get(req.method),
    ensures
        state.begin(req, started, at).0.cache == state.cache,
        match state.begin(req, started, at).1 {
            StepView::Respond { response, .. } => !response.cache_hit,
            StepView::Forward { .. } => true,
        },
{
}

/// The pipeline itself answers with `200`, `400`, `404` or `429` before
/// forwarding and with `502` after a failed forward, and with no other status
/// of its own; an answer of the origin keeps the origin's status.
pub proof fn law_statuses_of_the_pipeline(
    state: ProxyState,
    req: RequestView,
    started: u64,
    outcome: UpstreamView,
    at: Moment,
)
    ensures
        match state.begin(req, started, at).1 {
            StepView::Respond { response, .. } => response.status == status::OK || response.status
                == status::BAD_REQUEST || response.status == status::NOT_FOUND || response.status
                == status::TOO_MANY_REQUESTS,
            StepView::Forward { .. } => true,
        },
        match outcome {
            UpstreamView::Failed => state.finish(req, started, outcome, at).1.response.status
                == status::BAD_GATEWAY,
            UpstreamView::Answered { status, .. } => state.finish(
                req,
                started,
                outcome,
                at,
            ).1.response.status == status,
        },
{
}

/// The header `X-Cache: HIT` is set on the responses served from the cache
/// and on no others.
pub proof fn law_cache_header_marks_cache_hits(
    state: ProxyState,
    req: RequestView,
    started: u64,
    outcome: UpstreamView,
    at: Moment,
)
    ensures
        match state.begin(req, started, at).1 {
            StepView::Respond { response, .. } => response.cache_hit <==> state.admits(
                req,
                at.now,
            ) && state.routes.contains_key(virtual_host(req)) && state.hits(req, at.now),
            StepView::Forward { .. } => !(state.admits(req, at.now) && state.routes.contains_key(
                virtual_host(req),
            ) && state.hits(req, at.now)),
        },
        !state.finish(req, started, outcome, at).1.response.cache_hit,
{
}

/// A request changes the route table in neither half of the pipeline.
pub proof fn law_requests_leave_the_routes(
    state: ProxyState,
    req: RequestView,
    started: u64,
    outcome: UpstreamView,
    at: Moment,
)
    ensures
        state.begin(req, started, at).0.routes == state.routes,
        state.finish(req, started, outcome, at).0.routes == state.routes,
{
}

} // verus!
