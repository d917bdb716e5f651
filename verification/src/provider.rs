//! Fetch provider: a composite fallback fetcher over peer query services.
//!
//! Local storage gaps are not fatal: a resource the node cannot serve
//! locally is requested from peers known to retain it. The provider holds
//! an ordered list of peer clients and resolves a request by trying them
//! strictly in the order they were added; the first success wins, and
//! failure is reported only once every source has failed. With zero
//! configured peers every fetch fails immediately as unavailable.

use vstd::prelude::*;

use crate::CatchupError;

verus! {

/// A client for one peer query service.
///
/// The peer's observable behaviour is modelled by `store`: the committed
/// resources this peer would serve, as pairs of resource id and content.
pub struct QueryServiceClient {
    /// The peer's base address.
    pub url: String,
    /// The resources this peer serves, keyed by resource id.
    pub store: Vec<(u64, u64)>,
}

/// The first entry of `s` whose key is `key`, if any.
pub open spec fn spec_lookup_seq(s: Seq<(u64, u64)>, key: u64) -> Option<u64>
    decreases s.len(),
{
    if s.len() == 0 {
        None
    } else if s[0].0 == key {
        Some(s[0].1)
    } else {
        spec_lookup_seq(s.drop_first(), key)
    }
}

impl QueryServiceClient {
    /// What this peer returns for a resource id.
    pub open spec fn spec_lookup(self, key: u64) -> Option<u64> {
        spec_lookup_seq(self.store@, key)
    }

    /// Ask this one peer for the resource under `key`.
    pub fn fetch_one(&self, key: u64) -> (r: Option<u64>)
        ensures
            r == self.spec_lookup(key),
    {
        let mut i: usize = 0;
        proof {
            assert(self.store@.skip(0) =~= self.store@);
        }
        while i < self.store.len()
            invariant
                i <= self.store.len(),
                spec_lookup_seq(self.store@.skip(i as int), key) == self.spec_lookup(key),
            decreases self.store.len() - i,
        {
            let (k, v) = self.store[i];
            proof {
                assert(self.store@.skip(i as int)[0] == self.store@[i as int]);
                assert(self.store@.skip(i as int).drop_first() =~= self.store@.skip(i as int + 1));
            }
            if k == key {
                return Some(v);
            }
            i += 1;
        }
        proof {
            assert(self.store@.skip(i as int).len() == 0);
        }
        None
    }
}

/// The result of trying the peers of `cs` in order for `key`: the content
/// held by the first peer that serves it, or unavailable once every peer
/// has failed.
pub open spec fn spec_first_success(cs: Seq<QueryServiceClient>, key: u64) -> Result<
    u64,
    CatchupError,
>
    decreases cs.len(),
{
    if cs.len() == 0 {
        Err(CatchupError::Unavailable)
    } else {
        match cs[0].spec_lookup(key) {
            Some(v) => Ok(v),
            None => spec_first_success(cs.drop_first(), key),
        }
    }
}

/// Composite fallback fetcher built from zero or more peer clients, tried
/// strictly in the order they were added.
pub struct Provider {
    pub clients: Vec<QueryServiceClient>,
}

impl Provider {
    /// What a fetch through this provider resolves to.
    pub open spec fn spec_fetch(&self, key: u64) -> Result<u64, CatchupError> {
        spec_first_success(self.clients@, key)
    }

    /// Fetch the resource under `key`: try each configured peer in order
    /// and return the first success; fail as unavailable only after every
    /// peer has been tried.
    pub fn fetch(&self, key: u64) -> (r: Result<u64, CatchupError>)
        ensures
            r == self.spec_fetch(key),
    {
        let mut i: usize = 0;
        while i < self.clients.len()
            invariant
                i <= self.clients.len(),
                forall|j: int| 0 <= j < i ==> self.clients@[j].spec_lookup(key) is None,
            decreases self.clients.len() - i,
        {
            let r = self.clients[i].fetch_one(key);
            proof {
                lemma_first_success_skip(self.clients@, key, i as int);
                assert(self.clients@.skip(i as int)[0] == self.clients@[i as int]);
            }
            match r {
                Some(v) => {
                    return Ok(v);
                },
                None => {
                    i += 1;
                },
            }
        }
        proof {
            lemma_first_success_skip(self.clients@, key, i as int);
            assert(self.clients@.skip(i as int).len() == 0);
        }
        Err(CatchupError::Unavailable)
    }
}

/// The clients of `cs` wrap exactly the peer addresses of `peers`, in the
/// order they were given, and serve nothing yet.
pub open spec fn wraps_peers(cs: Seq<QueryServiceClient>, peers: Seq<String>) -> bool {
    &&& cs.len() == peers.len()
    &&& forall|i: int|
        0 <= i < cs.len() ==> #[trigger] cs[i].url == peers[i] && cs[i].store@.len() == 0
}

/// Build a provider from an ordered list of peer base addresses, each
/// wrapped as a query-service client.
pub fn provider(peers: Vec<String>) -> (r: Provider)
    ensures
        wraps_peers(r.clients@, peers@),
{
    let mut clients: Vec<QueryServiceClient> = Vec::new();
    let mut i: usize = 0;
    while i < peers.len()
        invariant
            i <= peers.len(),
            clients@.len() == i as int,
            forall|j: int|
                0 <= j < i ==> clients@[j].url == peers@[j] && clients@[j].store@.len() == 0,
        decreases peers.len() - i,
    {
        let url = peers[i].clone();
        clients.push(QueryServiceClient { url, store: Vec::new() });
        i += 1;
    }
    Provider { clients }
}

/// Resolve a resource by consulting local data first and falling back to
/// the configured peers: a local storage gap is forwarded to peers known to
/// retain the data rather than failing the request outright.
pub fn resolve_local_or_peers(local: Option<u64>, p: &Provider, key: u64) -> (r: Result<
    u64,
    CatchupError,
>)
    ensures
        local is Some ==> r == Ok::<u64, CatchupError>(local->0),
        local is None ==> r == p.spec_fetch(key),
{
    match local {
        Some(v) => Ok(v),
        None => p.fetch(key),
    }
}

/// If every peer before position `i` fails, resolution proceeds exactly as
/// it would on the remaining suffix.
pub proof fn lemma_first_success_skip(cs: Seq<QueryServiceClient>, key: u64, i: int)
    requires
        0 <= i <= cs.len(),
        forall|j: int| 0 <= j < i ==> cs[j].spec_lookup(key) is None,
    ensures
        spec_first_success(cs, key) == spec_first_success(cs.skip(i), key),
    decreases i,
{
    if i > 0 {
        assert(cs[0].spec_lookup(key) is None);
        assert(spec_first_success(cs, key) == spec_first_success(cs.drop_first(), key));
        assert(forall|j: int|
            0 <= j < i - 1 ==> cs.drop_first()[j] == cs[j + 1] && cs.drop_first()[
                j
            ].spec_lookup(key) is None);
        lemma_first_success_skip(cs.drop_first(), key, i - 1);
        assert(cs.drop_first().skip(i - 1) =~= cs.skip(i));
    } else {
        assert(cs.skip(0) =~= cs);
    }
}

/// If some peer holds the item, resolution succeeds.
pub proof fn lemma_some_peer_implies_ok(cs: Seq<QueryServiceClient>, key: u64)
    requires
        exists|j: int| 0 <= j < cs.len() && cs[j].spec_lookup(key) is Some,
    ensures
        spec_first_success(cs, key) is Ok,
    decreases cs.len(),
{
    if cs[0].spec_lookup(key) is None {
        let j = choose|j: int| 0 <= j < cs.len() && cs[j].spec_lookup(key) is Some;
        assert(j > 0);
        assert(cs.drop_first()[j - 1] == cs[j]);
        lemma_some_peer_implies_ok(cs.drop_first(), key);
    }
}

/// Law: with zero configured peers, every fetch fails as unavailable.
pub proof fn lemma_zero_peers_unavailable(p: Provider, key: u64)
    requires
        p.clients@.len() == 0,
    ensures
        p.spec_fetch(key) == Err::<u64, CatchupError>(CatchupError::Unavailable),
{
}

/// Law: sources are tried strictly in order. If every peer before `i`
/// fails for `key` and peer `i` holds `v` under it, the fetch returns
/// exactly `v`: the result neither attempts nor depends on any later peer,
/// nor on an earlier one succeeding.
pub proof fn lemma_fetch_in_order(p: Provider, key: u64, i: int, v: u64)
    requires
        0 <= i < p.clients@.len(),
        forall|j: int| 0 <= j < i ==> p.clients@[j].spec_lookup(key) is None,
        p.clients@[i].spec_lookup(key) == Some(v),
    ensures
        p.spec_fetch(key) == Ok::<u64, CatchupError>(v),
{
    lemma_first_success_skip(p.clients@, key, i);
    assert(p.clients@.skip(i)[0] == p.clients@[i]);
}

/// Law: failure is surfaced only once every source has failed. A fetch
/// resolves to unavailable exactly when no configured peer holds the item.
pub proof fn lemma_unavailable_iff_all_fail(p: Provider, key: u64)
    ensures
        (p.spec_fetch(key) == Err::<u64, CatchupError>(CatchupError::Unavailable)) <==> (forall|
            j: int,
        |
            0 <= j < p.clients@.len() ==> p.clients@[j].spec_lookup(key) is None),
{
    if forall|j: int| 0 <= j < p.clients@.len() ==> p.clients@[j].spec_lookup(key) is None {
        lemma_first_success_skip(p.clients@, key, p.clients@.len() as int);
        assert(p.clients@.skip(p.clients@.len() as int).len() == 0);
    }
    if !(forall|j: int| 0 <= j < p.clients@.len() ==> p.clients@[j].spec_lookup(key) is None) {
        assert(exists|j: int| 0 <= j < p.clients@.len() && p.clients@[j].spec_lookup(key) is Some);
        lemma_some_peer_implies_ok(p.clients@, key);
    }
}

} // verus!
