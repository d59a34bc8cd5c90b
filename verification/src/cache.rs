//! The response cache: bodies kept under a key until their time to live runs
//! out. Expired entries are dropped when they are next looked up; nothing
//! sweeps the cache in the background.

use vstd::prelude::*;
use vstd::hash_map::StringHashMap;
use vstd::string::StringExecFns;
use crate::clock::NANOS_PER_SEC;

verus! {

/// One cached body with the instant at which it stops being served.
struct CacheEntry {
    body: Vec<u8>,
    expires_at: u128,
}

/// What a cache entry holds, as plain values.
pub ghost struct CachedBody {
    /// The bytes of the body.
    pub body: Seq<u8>,
    /// The first instant, in nanoseconds on the monotonic clock, at which the
    /// entry is no longer served.
    pub expires_at: int,
}

impl View for CacheEntry {
    type V = CachedBody;

    closed spec fn view(&self) -> CachedBody {
        CachedBody { body: self.body@, expires_at: self.expires_at as int }
    }
}

/// The instant at which an entry stored at `now` with `ttl_seconds` to live
/// expires.
pub open spec fn expiry(now: u64, ttl_seconds: u64) -> int {
    now + ttl_seconds * NANOS_PER_SEC
}

/// The key of a request: `cache:` followed by the host, a colon, the path and,
/// when there is a query string, a question mark and the query as it was sent.
pub open spec fn cache_key(host: Seq<char>, path: Seq<char>, query: Option<Seq<char>>) -> Seq<char> {
    "cache:"@ + host + ":"@ + path + match query {
        Some(q) => "?"@ + q,
        None => Seq::<char>::empty(),
    }
}

/// Whether a lookup of `key` at `now` is served from `entries`: there is an
/// entry under the key and `now` is before its expiry.
pub open spec fn served(entries: Map<Seq<char>, CachedBody>, key: Seq<char>, now: u64) -> bool {
    entries.contains_key(key) && now < entries[key].expires_at
}

/// What a lookup of `key` at `now` leaves of `entries`: all of them when it is
/// served, else all but the one under the key.
pub open spec fn after_lookup(entries: Map<Seq<char>, CachedBody>, key: Seq<char>, now: u64) -> Map<
    Seq<char>,
    CachedBody,
> {
    if served(entries, key, now) {
        entries
    } else {
        entries.remove(key)
    }
}

/// What storing `body` under `key` at `now` for `ttl_seconds` makes of
/// `entries`: the entry under the key is replaced as a whole.
pub open spec fn after_store(
    entries: Map<Seq<char>, CachedBody>,
    key: Seq<char>,
    body: Seq<u8>,
    ttl_seconds: u64,
    now: u64,
) -> Map<Seq<char>, CachedBody> {
    entries.insert(key, CachedBody { body, expires_at: expiry(now, ttl_seconds) })
}

/// A copy of `bytes`.
pub fn copy_bytes(bytes: &Vec<u8>) -> (copy: Vec<u8>)
    ensures
        copy@ == bytes@,
{
    let copy = bytes.clone();
    copy
}

/// An in-memory cache of response bodies with lazy expiry.
pub struct MemoryCache {
    data: StringHashMap<CacheEntry>,
}

impl View for MemoryCache {
    type V = Map<Seq<char>, CachedBody>;

    /// The stored entries by key, the expired ones that were not looked up
    /// since included.
    closed spec fn view(&self) -> Map<Seq<char>, CachedBody> {
        self.data@.map_values(|e: CacheEntry| e@)
    }
}

impl MemoryCache {
    /// An empty cache.
    pub fn new() -> (cache: MemoryCache)
        ensures
            cache@ == Map::<Seq<char>, CachedBody>::empty(),
    {
        let cache = MemoryCache { data: StringHashMap::new() };
        cache
    }

    /// The number of entries held, the expired ones that were not looked up
    /// since included.
    pub fn len(&self) -> (n: usize)
        ensures
            n == self@.len(),
    {
        assert(self@.dom() =~= self.data@.dom());
        self.data.len()
    }

    /// Looks `key` up at the instant `now`. An entry that has not expired is
    /// answered with a copy of its body and the cache stays as it is. An
    /// expired entry is removed and the lookup misses.
    pub fn get(&mut self, key: &str, now: u64) -> (body: Option<Vec<u8>>)
        ensures
            match body {
                Some(b) => served(old(self)@, key@, now) && b@ == old(self)@[key@].body,
                None => !served(old(self)@, key@, now),
            },
            final(self)@ == after_lookup(old(self)@, key@, now),
    {
        let hit = match self.data.get(key) {
            Some(entry) => {
                if (now as u128) < entry.expires_at {
                    Some(copy_bytes(&entry.body))
                } else {
                    None
                }
            },
            None => None,
        };
        if hit.is_none() {
            self.data.remove(key);
        }
        hit
    }

    /// Stores `value` under `key` at the instant `now`, to be served for
    /// `ttl_seconds`. Whatever was stored under `key` before is replaced,
    /// body and expiry both.
    pub fn set(&mut self, key: String, value: Vec<u8>, ttl_seconds: u64, now: u64)
        ensures
            final(self)@ == after_store(old(self)@, key@, value@, ttl_seconds, now),
    {
        assert(ttl_seconds * NANOS_PER_SEC <= u64::MAX * 1_000_000_000) by (nonlinear_arith)
            requires
                ttl_seconds <= u64::MAX,
                NANOS_PER_SEC == 1_000_000_000,
        ;
        let expires_at: u128 = now as u128 + ttl_seconds as u128 * NANOS_PER_SEC as u128;
        self.data.insert(key, CacheEntry { body: value, expires_at });
    }

    /// The cache key of a request for `path` on `domain` with the raw query
    /// string `query`.
    pub fn generate_cache_key(domain: &str, path: &str, query: Option<&str>) -> (key: String)
        ensures
            key@ == cache_key(
                domain@,
                path@,
                match query {
                    Some(q) => Some(q@),
                    None => None,
                },
            ),
    {
        let mut key = String::from_str("cache:");
        key.append(domain);
        key.append(":");
        key.append(path);
        if let Some(q) = query {
            key.append("?");
            key.append(q);
        }
        key
    }
}

/// The part of a cache key that follows the host and its colon.
spec fn key_tail(path: Seq<char>, query: Option<Seq<char>>) -> Seq<char> {
    path + match query {
        Some(q) => "?"@ + q,
        None => Seq::<char>::empty(),
    }
}

/// Two texts without `mark` that are followed by `mark` and then by anything
/// are equal, and so is what follows, when the two wholes are.
proof fn lemma_split_at_mark(
    a: Seq<char>,
    rest_a: Seq<char>,
    b: Seq<char>,
    rest_b: Seq<char>,
    mark: char,
)
    requires
        !a.contains(mark),
        !b.contains(mark),
        a + seq![mark] + rest_a == b + seq![mark] + rest_b,
    ensures
        a == b,
        rest_a == rest_b,
{
    let whole_a = a + seq![mark] + rest_a;
    let whole_b = b + seq![mark] + rest_b;
    // Were one of the two shorter, its mark would stand inside the other.
    if a.len() < b.len() {
        assert(whole_b[a.len() as int] == b[a.len() as int]);
    }
    if b.len() < a.len() {
        assert(whole_a[b.len() as int] == a[b.len() as int]);
    }
    // So the mark stands at the same place in both wholes, and the parts
    // before and after it are the same.
    assert(a =~= b) by {
        assert forall|i: int| 0 <= i < a.len() implies a[i] == b[i] by {
            assert(whole_b[i] == b[i]);
        }
    }
    assert(whole_b.len() == b.len() + 1 + rest_b.len());
    assert(rest_a =~= rest_b) by {
        assert forall|i: int| 0 <= i < rest_a.len() implies rest_a[i] == rest_b[i] by {
            assert(whole_b[b.len() + 1 + i] == rest_b[i]);
        }
    }
}

/// Distinct requests have distinct cache keys: for hosts without a colon
/// (a virtual host never has one) and paths without a question mark, two
/// keys are equal only when host, path and query string all are. A missing
/// query string and an empty one count as different.
pub proof fn law_cache_keys_are_distinct(
    host_a: Seq<char>,
    path_a: Seq<char>,
    query_a: Option<Seq<char>>,
    host_b: Seq<char>,
    path_b: Seq<char>,
    query_b: Option<Seq<char>>,
)
    requires
        !host_a.contains(':'),
        !host_b.contains(':'),
        !path_a.contains('?'),
        !path_b.contains('?'),
        cache_key(host_a, path_a, query_a) == cache_key(host_b, path_b, query_b),
    ensures
        host_a == host_b,
        path_a == path_b,
        query_a == query_b,
{
    reveal_strlit("cache:");
    reveal_strlit(":");
    reveal_strlit("?");
    let tail_a = key_tail(path_a, query_a);
    let tail_b = key_tail(path_b, query_b);
    let key_a = cache_key(host_a, path_a, query_a);
    let key_b = cache_key(host_b, path_b, query_b);
    assert(host_a + seq![':'] + tail_a =~= key_a.skip(6));
    assert(host_b + seq![':'] + tail_b =~= key_b.skip(6));
    lemma_split_at_mark(host_a, tail_a, host_b, tail_b, ':');
    match (query_a, query_b) {
        (Some(qa), Some(qb)) => {
            assert(tail_a =~= path_a + seq!['?'] + qa);
            assert(tail_b =~= path_b + seq!['?'] + qb);
            lemma_split_at_mark(path_a, qa, path_b, qb, '?');
        },
        (Some(qa), None) => {
            // The one tail holds a question mark, the other is a path.
            assert(tail_a[path_a.len() as int] == '?');
        },
        (None, Some(qb)) => {
            assert(tail_b[path_b.len() as int] == '?');
        },
        (None, None) => {},
    }
}

} // verus!
