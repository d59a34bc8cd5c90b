//! The route table: which upstream origin serves which virtual host.

use vstd::prelude::*;
use vstd::hash_map::StringHashMap;
use crate::config::DomainConfig;
use crate::text::text_of;

verus! {

/// A mapping from virtual-host name to upstream origin URL prefix. Each host
/// has at most one origin; a later binding for a host replaces the earlier one
/// as a whole.
pub struct RouteTable {
    bindings: StringHashMap<String>,
}

impl View for RouteTable {
    type V = Map<Seq<char>, Seq<char>>;

    /// The bindings as a map from host to origin.
    closed spec fn view(&self) -> Map<Seq<char>, Seq<char>> {
        self.bindings@.map_values(|origin: String| origin@)
    }
}

/// What a lookup of `host` finds in `routes`.
pub open spec fn lookup(routes: Map<Seq<char>, Seq<char>>, host: Seq<char>) -> Option<Seq<char>> {
    if routes.contains_key(host) {
        Some(routes[host])
    } else {
        None
    }
}

/// The routes that a list of configured domains asks for: each enabled domain
/// bound to its origin, a later entry for a host replacing an earlier one;
/// disabled domains are left out.
pub open spec fn routes_of(domains: Seq<DomainConfig>) -> Map<Seq<char>, Seq<char>>
    decreases domains.len(),
{
    if domains.len() == 0 {
        Map::empty()
    } else {
        let earlier = routes_of(domains.drop_last());
        let domain = domains.last();
        if domain.enabled {
            earlier.insert(domain.domain@, domain.origin@)
        } else {
            earlier
        }
    }
}

impl RouteTable {
    /// An empty table: every lookup misses.
    pub fn new() -> (table: RouteTable)
        ensures
            table@ == Map::<Seq<char>, Seq<char>>::empty(),
    {
        let table = RouteTable { bindings: StringHashMap::new() };
        table
    }

    /// The table that routes the enabled ones of `domains`.
    pub fn from_domains(domains: &Vec<DomainConfig>) -> (table: RouteTable)
        ensures
            table@ == routes_of(domains@),
    {
        let mut table = RouteTable::new();
        let mut i: usize = 0;
        while i < domains.len()
            invariant
                i <= domains@.len(),
                table@ == routes_of(domains@.take(i as int)),
            decreases domains@.len() - i,
        {
            let domain = &domains[i];
            if domain.enabled {
                table.upsert(domain.domain.clone(), domain.origin.clone());
            }
            proof {
                assert(domains@.take(i + 1).drop_last() =~= domains@.take(i as int));
            }
            i += 1;
        }
        assert(domains@.take(i as int) =~= domains@);
        table
    }

    /// The number of hosts that are routed.
    pub fn len(&self) -> (n: usize)
        ensures
            n == self@.len(),
    {
        assert(self@.dom() =~= self.bindings@.dom());
        self.bindings.len()
    }

    /// The origin bound to `host`, or `None` when the host is not routed.
    pub fn resolve(&self, host: &str) -> (origin: Option<String>)
        ensures
            text_of(origin) == lookup(self@, host@),
    {
        match self.bindings.get(host) {
            Some(o) => Some(o.clone()),
            None => None,
        }
    }

    /// Binds `host` to `origin`, replacing any earlier binding of `host`.
    pub fn upsert(&mut self, host: String, origin: String)
        ensures
            final(self)@ == old(self)@.insert(host@, origin@),
    {
        self.bindings.insert(host, origin);
    }

    /// Removes the binding of `host`, if there is one.
    pub fn remove(&mut self, host: &str)
        ensures
            final(self)@ == old(self)@.remove(host@),
    {
        self.bindings.remove(host);
    }
}

/// Whether the entry at `i` of `domains` is enabled and names `host`.
pub open spec fn routes_host(domains: Seq<DomainConfig>, i: int, host: Seq<char>) -> bool {
    0 <= i < domains.len() && domains[i].enabled && domains[i].domain@ == host
}

/// The routes of a configuration, entry by entry: a host is routed exactly
/// when an enabled entry names it, and then to the origin of the last such
/// entry.
pub proof fn law_routes_follow_the_last_enabled_entry(
    domains: Seq<DomainConfig>,
    host: Seq<char>,
)
    ensures
        routes_of(domains).contains_key(host) <==> exists|i: int| routes_host(domains, i, host),
        forall|i: int|
            routes_host(domains, i, host) && (forall|j: int|
                i < j ==> !routes_host(domains, j, host)) ==> routes_of(domains)[host]
                == domains[i].origin@,
    decreases domains.len(),
{
    if domains.len() > 0 {
        let earlier = domains.drop_last();
        let last = domains.len() - 1;
        law_routes_follow_the_last_enabled_entry(earlier, host);
        assert forall|i: int| routes_host(earlier, i, host) == (routes_host(domains, i, host) && i
            < last) by {}
        if !routes_host(domains, last, host) && routes_of(domains).contains_key(host) {
            // The entry that routes the host stands among the earlier ones.
            let i = choose|i: int| routes_host(earlier, i, host);
            assert(routes_host(domains, i, host));
        }
        assert forall|i: int|
            routes_host(domains, i, host) && (forall|j: int|
                i < j ==> !routes_host(domains, j, host)) implies routes_of(domains)[host]
                == domains[i].origin@ by {
            if i < last {
                assert(routes_host(earlier, i, host));
                assert forall|j: int| i < j implies !routes_host(earlier, j, host) by {}
            }
        }
    }
}

/// One change of the route table.
pub ghost enum RouteWrite {
    /// Bind the host to the origin.
    Upsert { host: Seq<char>, origin: Seq<char> },
    /// Take the host's binding out.
    Remove { host: Seq<char> },
}

impl RouteWrite {
    /// The host that the change is about.
    pub open spec fn host(self) -> Seq<char> {
        match self {
            RouteWrite::Upsert { host, .. } => host,
            RouteWrite::Remove { host } => host,
        }
    }

    /// What a lookup of the change's host finds right after the change.
    pub open spec fn leaves(self) -> Option<Seq<char>> {
        match self {
            RouteWrite::Upsert { origin, .. } => Some(origin),
            RouteWrite::Remove { .. } => None,
        }
    }

    /// The bindings after the change.
    pub open spec fn apply(self, routes: Map<Seq<char>, Seq<char>>) -> Map<Seq<char>, Seq<char>> {
        match self {
            RouteWrite::Upsert { host, origin } => routes.insert(host, origin),
            RouteWrite::Remove { host } => routes.remove(host),
        }
    }
}

/// The bindings after the changes `writes`, made in order.
pub open spec fn apply_all(routes: Map<Seq<char>, Seq<char>>, writes: Seq<RouteWrite>) -> Map<
    Seq<char>,
    Seq<char>,
>
    decreases writes.len(),
{
    if writes.len() == 0 {
        routes
    } else {
        writes.last().apply(apply_all(routes, writes.drop_last()))
    }
}

/// The last of `writes` that is about `host`, if any is.
pub open spec fn last_write(writes: Seq<RouteWrite>, host: Seq<char>) -> Option<RouteWrite>
    decreases writes.len(),
{
    if writes.len() == 0 {
        None
    } else if writes.last().host() == host {
        Some(writes.last())
    } else {
        last_write(writes.drop_last(), host)
    }
}

/// A lookup sees the latest change of its host and nothing older: after any
/// changes `writes`, a lookup of `host` finds what the last change of `host`
/// among them left, and what was bound before them when none of them is
/// about `host`.
pub proof fn law_lookup_sees_latest_write(
    routes: Map<Seq<char>, Seq<char>>,
    writes: Seq<RouteWrite>,
    host: Seq<char>,
)
    ensures
        lookup(apply_all(routes, writes), host) == match last_write(writes, host) {
            Some(write) => write.leaves(),
            None => lookup(routes, host),
        },
    decreases writes.len(),
{
    if writes.len() > 0 {
        law_lookup_sees_latest_write(routes, writes.drop_last(), host);
    }
}

/// Once `host` has been bound to `origin`, a lookup of `host` finds `origin`
/// or what a later change of `host` left, and never what was bound before:
/// the result does not depend on the table that the binding was made in.
pub proof fn law_upsert_is_seen_until_overwritten(
    routes: Map<Seq<char>, Seq<char>>,
    host: Seq<char>,
    origin: Seq<char>,
    later: Seq<RouteWrite>,
)
    ensures
        lookup(apply_all(routes.insert(host, origin), later), host) == match last_write(
            later,
            host,
        ) {
            Some(write) => write.leaves(),
            None => Some(origin),
        },
{
    law_lookup_sees_latest_write(routes.insert(host, origin), later, host);
}

} // verus!
