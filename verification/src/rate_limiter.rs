//! The rate limiter: a fixed window of admissions per client identity, and the
//! sweep that forgets identities that stopped sending.
//!
//! The window is fixed, not sliding: a client may send up to the limit at the
//! end of one window and again at the start of the next. That is a known
//! approximation of this scheme.

use vstd::prelude::*;
use vstd::hash_map::StringHashMap;
use vstd::string::StringExecFns;
use crate::clock::NANOS_PER_SEC;

verus! {

/// The admissions counted for one identity since its window opened.
#[derive(Clone, Copy, Debug, PartialEq, Eq)]
pub struct Window {
    /// Requests admitted in this window.
    pub count: u32,
    /// The instant the window opened, in nanoseconds on the monotonic clock.
    pub start: u64,
}

/// The length of a window of `window_seconds`, in nanoseconds.
pub open spec fn window_nanos(window_seconds: u64) -> int {
    window_seconds * NANOS_PER_SEC
}

/// The time from `start` to `now`; zero when `now` is not after `start`.
pub open spec fn since(start: u64, now: u64) -> int {
    if now >= start {
        now - start
    } else {
        0
    }
}

/// Whether the sweep at `now` forgets the window `w`: more than twice the
/// window length has passed since it opened.
pub open spec fn stale(w: Window, window_seconds: u64, now: u64) -> bool {
    since(w.start, now) > 2 * window_nanos(window_seconds)
}

/// The windows that a sweep at `now` keeps: those that are not stale, each
/// unchanged.
pub open spec fn kept_windows(
    windows: Map<Seq<char>, Window>,
    window_seconds: u64,
    now: u64,
) -> Map<Seq<char>, Window> {
    Map::new(
        |k: Seq<char>| windows.contains_key(k) && !stale(windows[k], window_seconds, now),
        |k: Seq<char>| windows[k],
    )
}

/// A rate limiter as plain values: the window of each known identity and the
/// two settings.
pub ghost struct LimiterState {
    /// The window of each known identity.
    pub windows: Map<Seq<char>, Window>,
    /// The most requests admitted per identity in one window.
    pub limit: u32,
    /// The length of a window, in seconds.
    pub window_seconds: u64,
}

impl LimiterState {
    /// Whether the window of `key` is still running at `now`: the identity is
    /// known and no more than the window length has passed since its window
    /// opened.
    pub open spec fn window_open(self, key: Seq<char>, now: u64) -> bool {
        self.windows.contains_key(key) && since(self.windows[key].start, now) <= window_nanos(
            self.window_seconds,
        )
    }

    /// Whether a request of `key` at `now` is admitted: always when it opens
    /// a new window, else while the window's count is below the limit.
    pub open spec fn admits(self, key: Seq<char>, now: u64) -> bool {
        !self.window_open(key, now) || self.windows[key].count < self.limit
    }

    /// The state after a request of `key` at `now`. A request that opens a
    /// new window sets it to one admission starting at `now`; an admitted
    /// request in a running window adds one to its count; a denied request
    /// changes nothing.
    pub open spec fn after_request(self, key: Seq<char>, now: u64) -> LimiterState {
        if !self.window_open(key, now) {
            LimiterState { windows: self.windows.insert(key, Window { count: 1, start: now }), ..self }
        } else if self.windows[key].count < self.limit {
            LimiterState {
                windows: self.windows.insert(
                    key,
                    Window {
                        count: (self.windows[key].count + 1) as u32,
                        start: self.windows[key].start,
                    },
                ),
                ..self
            }
        } else {
            self
        }
    }

    /// The state that a sweep at `now` leaves: the windows that are not
    /// stale, each unchanged.
    pub open spec fn swept(self, now: u64) -> LimiterState {
        LimiterState { windows: kept_windows(self.windows, self.window_seconds, now), ..self }
    }

    /// Whether every count lies between one and the limit (or is one, where
    /// the limit is zero: the request that opens a window is always
    /// admitted).
    pub open spec fn bounded(self) -> bool {
        forall|k: Seq<char>| #[trigger]
            self.windows.contains_key(k) ==> 1 <= self.windows[k].count && (self.windows[k].count
                <= self.limit || self.windows[k].count == 1)
    }
}

/// Whether `key` is the text of one of `names`.
spec fn listed(names: Seq<String>, key: Seq<char>) -> bool {
    exists|i: int| 0 <= i < names.len() && #[trigger] names[i]@ == key
}

/// Whether no text occurs twice in `names`.
spec fn distinct(names: Seq<String>) -> bool {
    forall|i: int, j: int|
        0 <= i < j < names.len() ==> #[trigger] names[i]@ != #[trigger] names[j]@
}

/// Whether `names` lists exactly the identities that have a window in
/// `windows`, each once.
spec fn indexed(windows: Map<Seq<char>, Window>, names: Seq<String>) -> bool {
    &&& distinct(names)
    &&& forall|i: int| 0 <= i < names.len() ==> windows.contains_key(#[trigger] names[i]@)
    &&& forall|k: Seq<char>| #[trigger] windows.contains_key(k) ==> listed(names, k)
}

/// The length of a window of `window_seconds` in nanoseconds.
fn window_length(window_seconds: u64) -> (nanos: u128)
    ensures
        nanos == window_nanos(window_seconds),
        nanos <= u64::MAX * 1_000_000_000,
{
    assert(window_seconds * NANOS_PER_SEC <= u64::MAX * 1_000_000_000) by (nonlinear_arith)
        requires
            window_seconds <= u64::MAX,
            NANOS_PER_SEC == 1_000_000_000,
    ;
    window_seconds as u128 * NANOS_PER_SEC as u128
}

/// The time from `start` to `now`, zero when `now` is not after `start`.
fn time_since(start: u64, now: u64) -> (idle: u64)
    ensures
        idle == since(start, now),
{
    if now >= start {
        now - start
    } else {
        0
    }
}

/// Decides one request and counts it in `windows`, listing the identity in
/// `identities` when it is new.
fn count_request(
    windows: &mut StringHashMap<Window>,
    identities: &mut Vec<String>,
    limit: u32,
    window_seconds: u64,
    key: &str,
    now: u64,
) -> (allowed: bool)
    requires
        indexed(old(windows)@, old(identities)@),
        (LimiterState { windows: old(windows)@, limit, window_seconds }).bounded(),
    ensures
        indexed(final(windows)@, final(identities)@),
        (LimiterState { windows: final(windows)@, limit, window_seconds }).bounded(),
        allowed == (LimiterState { windows: old(windows)@, limit, window_seconds }).admits(
            key@,
            now,
        ),
        final(windows)@ == (LimiterState {
            windows: old(windows)@,
            limit,
            window_seconds,
        }).after_request(key@, now).windows,
{
    let length = window_length(window_seconds);
    let found: Option<Window> = match windows.get(key) {
        Some(w) => Some(*w),
        None => None,
    };
    let allowed = match found {
        None => {
            windows.insert(String::from_str(key), Window { count: 1, start: now });
            identities.push(String::from_str(key));
            proof {
                let n = old(identities)@.len() as int;
                assert(identities@[n]@ == key@);
                assert forall|k: Seq<char>| #[trigger] windows@.contains_key(k) implies listed(
                    identities@,
                    k,
                ) by {
                    if k != key@ {
                        let i = choose|i: int|
                            0 <= i < old(identities)@.len() && old(identities)@[i]@ == k;
                        assert(identities@[i]@ == k);
                    }
                }
            }
            true
        },
        Some(w) => {
            if time_since(w.start, now) as u128 > length {
                windows.insert(String::from_str(key), Window { count: 1, start: now });
                true
            } else if w.count < limit {
                windows.insert(String::from_str(key), Window { count: w.count + 1, start: w.start });
                true
            } else {
                false
            }
        },
    };
    proof {
        let before = LimiterState { windows: old(windows)@, limit, window_seconds };
        let after = LimiterState { windows: windows@, limit, window_seconds };
        assert forall|k: Seq<char>| #[trigger] after.windows.contains_key(k) implies 1
            <= after.windows[k].count && (after.windows[k].count <= limit || after.windows[k].count
            == 1) by {
            assert(k == key@ || before.windows.contains_key(k));
        }
    }
    allowed
}

/// Takes the stale windows out of `windows` and their identities out of
/// `identities`.
fn sweep(
    windows: &mut StringHashMap<Window>,
    identities: &mut Vec<String>,
    window_seconds: u64,
    now: u64,
)
    requires
        indexed(old(windows)@, old(identities)@),
    ensures
        indexed(final(windows)@, final(identities)@),
        final(windows)@ == kept_windows(old(windows)@, window_seconds, now),
{
    let length = window_length(window_seconds);
    let ghost before = old(windows)@;
    let ghost names = old(identities)@;
    let mut pending: Vec<String> = Vec::new();
    std::mem::swap(identities, &mut pending);
    while pending.len() > 0
        invariant
            length == window_nanos(window_seconds),
            indexed(before, names),
            pending@.len() <= names.len(),
            pending@ == names.take(pending@.len() as int),
            distinct(identities@),
            forall|k: Seq<char>| #[trigger]
                windows@.contains_key(k) <==> before.contains_key(k) && !(stale(
                    before[k],
                    window_seconds,
                    now,
                ) && !listed(pending@, k)),
            forall|k: Seq<char>| #[trigger] windows@.contains_key(k) ==> windows@[k] == before[k],
            forall|k: Seq<char>| #[trigger]
                listed(identities@, k) <==> before.contains_key(k) && !stale(before[k], window_seconds, now)
                    && !listed(pending@, k),
        decreases pending.len(),
    {
        let ghost rest = pending@;
        let ghost kept = identities@;
        let name = pending.pop().unwrap();
        // The name just taken is listed once among the names, so it is not
        // among those still pending.
        assert(!listed(pending@, name@));
        assert forall|k: Seq<char>| k != name@ implies (listed(rest, k) <==> listed(pending@, k)) by {
            if listed(rest, k) {
                let i = choose|i: int| 0 <= i < rest.len() && rest[i]@ == k;
                assert(pending@[i]@ == k);
            }
        }
        assert(listed(rest, name@));
        let expired = match windows.get(name.as_str()) {
            Some(w) => time_since(w.start, now) as u128 > 2 * length,
            None => false,
        };
        if expired {
            windows.remove(name.as_str());
        } else {
            identities.push(name);
            let ghost n = kept.len() as int;
            assert(distinct(identities@)) by {
                assert forall|i: int, j: int| 0 <= i < j < identities@.len() implies #[trigger]
                    identities@[i]@ != #[trigger] identities@[j]@ by {
                    if j == n && kept[i]@ == name@ {
                        assert(listed(kept, name@));
                    }
                }
            }
            assert forall|k: Seq<char>| #[trigger]
                listed(identities@, k) <==> before.contains_key(k) && !stale(before[k], window_seconds, now)
                    && !listed(pending@, k) by {
                if k == name@ {
                    assert(identities@[n]@ == k);
                } else if listed(kept, k) {
                    let i = choose|i: int| 0 <= i < kept.len() && kept[i]@ == k;
                    assert(identities@[i]@ == k);
                }
            }
        }
    }
    proof {
        assert forall|k: Seq<char>| !listed(pending@, k) by {}
        assert forall|i: int| 0 <= i < identities@.len() implies windows@.contains_key(
            #[trigger] identities@[i]@,
        ) by {
            assert(listed(identities@, identities@[i]@));
        }
    }
}

/// A fixed-window admission controller keyed by client identity.
pub struct RateLimiter {
    windows: StringHashMap<Window>,
    /// The identities that have a window, each once: what the sweep walks.
    identities: Vec<String>,
    window_seconds: u64,
    limit: u32,
}

impl View for RateLimiter {
    type V = LimiterState;

    closed spec fn view(&self) -> LimiterState {
        LimiterState {
            windows: self.windows@,
            limit: self.limit,
            window_seconds: self.window_seconds,
        }
    }
}

impl RateLimiter {
    /// What holds of every limiter: the counts are bounded by the limit, and
    /// the list of identities names exactly the identities that have a
    /// window, each once.
    #[verifier::type_invariant]
    spec fn inv(&self) -> bool {
        &&& self@.bounded()
        &&& indexed(self.windows@, self.identities@)
    }

    /// A limiter that admits `limit` requests per identity in each window of
    /// `window_seconds`, with no identity known yet.
    pub fn new(limit: u32, window_seconds: u64) -> (limiter: RateLimiter)
        ensures
            limiter@ == (LimiterState { windows: Map::empty(), limit, window_seconds }),
    {
        RateLimiter { windows: StringHashMap::new(), identities: Vec::new(), window_seconds, limit }
    }

    /// The most requests admitted per identity in one window.
    pub fn limit(&self) -> (limit: u32)
        ensures
            limit == self@.limit,
    {
        self.limit
    }

    /// The length of a window, in seconds.
    pub fn window_seconds(&self) -> (seconds: u64)
        ensures
            seconds == self@.window_seconds,
    {
        self.window_seconds
    }

    /// The window of `key`, when the identity is known.
    pub fn window(&self, key: &str) -> (window: Option<Window>)
        ensures
            self@.bounded(),
            window == if self@.windows.contains_key(key@) {
                Some(self@.windows[key@])
            } else {
                None
            },
    {
        proof {
            use_type_invariant(self);
        }
        match self.windows.get(key) {
            Some(w) => Some(*w),
            None => None,
        }
    }

    /// The number of identities that have a window.
    pub fn len(&self) -> (n: usize)
        ensures
            n == self@.windows.len(),
    {
        self.windows.len()
    }

    /// Takes the limiter out of `self` to work on its parts, and leaves an
    /// empty one with the same settings until the parts are put back.
    fn take(&mut self) -> (taken: RateLimiter)
        ensures
            taken == *old(self),
            taken.inv(),
            final(self).limit == old(self).limit,
            final(self).window_seconds == old(self).window_seconds,
    {
        proof {
            use_type_invariant(&*self);
        }
        let mut taken = RateLimiter::new(self.limit, self.window_seconds);
        std::mem::swap(self, &mut taken);
        taken
    }

    /// Decides one request of `key` made at the instant `now`, and counts it
    /// when it is admitted. No count ever exceeds the limit.
    pub fn allow(&mut self, key: &str, now: u64) -> (allowed: bool)
        ensures
            allowed == old(self)@.admits(key@, now),
            final(self)@ == old(self)@.after_request(key@, now),
            old(self)@.bounded(),
            final(self)@.bounded(),
    {
        let RateLimiter { mut windows, mut identities, window_seconds, limit } = self.take();
        let allowed = count_request(&mut windows, &mut identities, limit, window_seconds, key, now);
        *self = RateLimiter { windows, identities, window_seconds, limit };
        allowed
    }

    /// One pass of the sweep at the instant `now`: forgets every identity
    /// whose window opened more than two window lengths ago, and leaves the
    /// others as they are.
    pub fn cleanup(&mut self, now: u64)
        ensures
            final(self)@ == old(self)@.swept(now),
    {
        let RateLimiter { mut windows, mut identities, window_seconds, limit } = self.take();
        sweep(&mut windows, &mut identities, window_seconds, now);
        proof {
            let before = old(self)@;
            assert forall|k: Seq<char>| #[trigger] windows@.contains_key(k) implies 1
                <= windows@[k].count && (windows@[k].count <= limit || windows@[k].count == 1) by {
                assert(before.windows.contains_key(k));
            }
        }
        *self = RateLimiter { windows, identities, window_seconds, limit };
    }
}

impl LimiterState {
    /// The state after requests of `key` at each of `times`, in order.
    pub open spec fn replay(self, key: Seq<char>, times: Seq<u64>) -> LimiterState
        decreases times.len(),
    {
        if times.len() == 0 {
            self
        } else {
            self.replay(key, times.drop_last()).after_request(key, times.last())
        }
    }
}

/// A request never pushes a count over the limit: bounded counts stay
/// bounded.
pub proof fn law_requests_keep_counts_bounded(state: LimiterState, key: Seq<char>, now: u64)
    requires
        state.bounded(),
    ensures
        state.after_request(key, now).bounded(),
{
    let next = state.after_request(key, now);
    assert forall|k: Seq<char>| #[trigger] next.windows.contains_key(k) implies 1
        <= next.windows[k].count && (next.windows[k].count <= next.limit || next.windows[k].count
        == 1) by {
        assert(k == key || state.windows.contains_key(k));
    }
}

/// Identities are counted apart: a request of one identity changes neither
/// the window of another nor whether the other's next request is admitted.
pub proof fn law_identities_are_counted_apart(
    state: LimiterState,
    key: Seq<char>,
    other: Seq<char>,
    now: u64,
    later: u64,
)
    requires
        key != other,
    ensures
        state.after_request(other, now).windows.contains_key(key) == state.windows.contains_key(
            key,
        ),
        state.after_request(other, now).windows[key] == state.windows[key],
        state.after_request(other, now).admits(key, later) == state.admits(key, later),
{
}

/// While every request falls into the window that the first one opened, the
/// window counts the requests made, up to the limit.
proof fn lemma_burst_counts(state: LimiterState, key: Seq<char>, times: Seq<u64>, n: int)
    requires
        state.limit >= 1,
        !state.window_open(key, times[0]),
        forall|j: int| 0 <= j < times.len() ==> since(times[0], #[trigger] times[j]) <= window_nanos(
            state.window_seconds,
        ),
        1 <= n <= times.len(),
    ensures
        state.replay(key, times.take(n)).limit == state.limit,
        state.replay(key, times.take(n)).window_seconds == state.window_seconds,
        state.replay(key, times.take(n)).windows.contains_key(key),
        state.replay(key, times.take(n)).windows[key].start == times[0],
        state.replay(key, times.take(n)).windows[key].count == if n <= state.limit {
            n
        } else {
            state.limit as int
        },
    decreases n,
{
    let taken = times.take(n);
    assert(taken.drop_last() =~= times.take(n - 1));
    if n == 1 {
        assert(state.replay(key, times.take(0)) == state);
    } else {
        lemma_burst_counts(state, key, times, n - 1);
    }
}

/// With a limit of `N >= 1`, of the requests that one identity makes within
/// one window, exactly the first `N` are admitted: when the first of `times`
/// opens a new window and all of `times` fall into it, the request at
/// `times[i]` is admitted if and only if `i < N`.
pub proof fn law_window_admits_exactly_the_limit(
    state: LimiterState,
    key: Seq<char>,
    times: Seq<u64>,
    i: int,
)
    requires
        state.limit >= 1,
        0 <= i < times.len(),
        !state.window_open(key, times[0]),
        forall|j: int| 0 <= j < times.len() ==> since(times[0], #[trigger] times[j]) <= window_nanos(
            state.window_seconds,
        ),
    ensures
        state.replay(key, times.take(i)).admits(key, times[i]) <==> i < state.limit,
{
    if i > 0 {
        lemma_burst_counts(state, key, times, i);
    }
}

/// Once more than the window length has passed since an identity's window
/// opened, its next request is admitted and opens a new window with a count
/// of one.
pub proof fn law_lapsed_window_resets(state: LimiterState, key: Seq<char>, now: u64)
    requires
        state.windows.contains_key(key),
        since(state.windows[key].start, now) > window_nanos(state.window_seconds),
    ensures
        state.admits(key, now),
        state.after_request(key, now).windows[key] == (Window { count: 1, start: now }),
{
}

/// The sweep forgets an identity whose window opened more than two window
/// lengths ago, and the identity's next request, whenever it comes, is
/// admitted as that of a new identity: with a count of one.
pub proof fn law_sweep_forgets_idle_identity(
    state: LimiterState,
    key: Seq<char>,
    now: u64,
    later: u64,
)
    requires
        state.windows.contains_key(key),
        since(state.windows[key].start, now) > 2 * window_nanos(state.window_seconds),
    ensures
        !state.swept(now).windows.contains_key(key),
        state.swept(now).admits(key, later),
        state.swept(now).after_request(key, later).windows[key] == (Window {
            count: 1,
            start: later,
        }),
{
}

/// The sweep leaves every identity that is not idle with its window as it
/// was.
pub proof fn law_sweep_keeps_active_identity(state: LimiterState, key: Seq<char>, now: u64)
    requires
        state.windows.contains_key(key),
        since(state.windows[key].start, now) <= 2 * window_nanos(state.window_seconds),
    ensures
        state.swept(now).windows.contains_key(key),
        state.swept(now).windows[key] == state.windows[key],
{
}

} // verus!
