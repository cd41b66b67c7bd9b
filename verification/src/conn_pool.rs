//! Keeping upstream connections for reuse: the keyed idle set of a pool,
//! and the single connection an mcp client keeps between its requests.
//!
//! Both hand connections out by value and take them back only when they are
//! still usable; whatever is not taken back is closed by being dropped.
use vstd::prelude::*;
use crate::assoc::AssocList;
use crate::proxy_pass::{connection_key, connection_key_spec, ProxyPassToConfig};
use crate::upstream_policy::{idle_expired, idle_micros_expired};

verus! {

/// A connection that can tell whether its remote end is known to be gone.
pub trait PooledConnection {
    fn is_disconnected(&self) -> bool;
}

/// Idle connections keyed by upstream identity, at most `max_idle_per_key`
/// per key.
pub struct H1PoolHolder<T> {
    pools: AssocList<String, Vec<T>>,
    max_idle_per_key: usize,
}

/// The idle list under `key` (empty when there is none).
pub open spec fn idle_of<T>(m: Map<Seq<char>, Vec<T>>, key: Seq<char>) -> Seq<T> {
    if m.contains_key(key) { m[key]@ } else { Seq::empty() }
}

/// `i` is the first position of `answers` that is not "disconnected".
pub open spec fn first_live(answers: Seq<bool>, i: int) -> bool {
    &&& 0 <= i < answers.len()
    &&& !answers[i]
    &&& forall|j: int| 0 <= j < i ==> answers[j]
}

/// Checking out an idle connection for `key` took the pool from
/// `old_pools` to `new_pools` and handed out `r`, given the answers of the
/// idle connections, most recently returned first, to whether they are
/// disconnected: the first live one is handed out and the older ones stay
/// idle; with no live one the list is emptied and nothing is handed out.
/// Every other upstream's list is left alone.
pub open spec fn handed_out<T>(old_pools: Map<Seq<char>, Vec<T>>, new_pools: Map<Seq<char>, Vec<T>>, key: Seq<char>, answers: Seq<bool>, r: Option<T>) -> bool {
    let before = idle_of(old_pools, key);
    let len = before.len() as int;
    &&& answers.len() == len
    &&& new_pools.dom() == old_pools.dom()
    &&& forall|k: Seq<char>| k != key && #[trigger] old_pools.contains_key(k) ==> new_pools[k] == old_pools[k]
    &&& if exists|i: int| #[trigger] first_live(answers, i) {
        let i = choose|i: int| #[trigger] first_live(answers, i);
        &&& r == Some(before[len - 1 - i])
        &&& idle_of(new_pools, key) == before.take(len - 1 - i)
    } else {
        &&& r is None
        &&& idle_of(new_pools, key) == Seq::<T>::empty()
    }
}

impl<T: PooledConnection> H1PoolHolder<T> {
    pub closed spec fn pools(&self) -> Map<Seq<char>, Vec<T>> {
        self.pools.map()
    }

    pub closed spec fn max_idle(&self) -> nat {
        self.max_idle_per_key as nat
    }

    /// The table is well formed, the capacity is at least one, and no idle
    /// list is over it.
    pub closed spec fn wf(&self) -> bool {
        &&& self.pools.wf()
        &&& self.max_idle_per_key >= 1
        &&& forall|k: Seq<char>| #[trigger] self.pools.map().contains_key(k)
            ==> self.pools.map()[k]@.len() <= self.max_idle_per_key
    }

    /// A pool for one client connection: one idle connection per upstream.
    pub fn new_local() -> (r: Self)
        ensures
            r.wf(),
            r.pools().dom().is_empty(),
            r.max_idle() == 1,
    {
        H1PoolHolder { pools: AssocList::new(), max_idle_per_key: 1 }
    }

    /// A shared pool keeping up to `max_idle_per_key` (at least one) idle
    /// connections per upstream.
    pub fn new_global(max_idle_per_key: usize) -> (r: Self)
        ensures
            r.wf(),
            r.pools().dom().is_empty(),
            r.max_idle() == if max_idle_per_key >= 1 { max_idle_per_key as nat } else { 1 },
    {
        let max = if max_idle_per_key >= 1 { max_idle_per_key } else { 1 };
        H1PoolHolder { pools: AssocList::new(), max_idle_per_key: max }
    }

    /// Checks out an idle connection for `proxy_pass_to`: idle connections
    /// are taken from the most recently returned one backwards, those that
    /// report themselves disconnected are dropped, and the first live one is
    /// handed out.  `None` means the caller must dial a fresh one; every idle
    /// connection of the upstream has then been dropped.  Each idle
    /// connection answers for itself whether it is disconnected; the pool
    /// ends as `handed_out` states for those answers.
    pub fn acquire_idle(&mut self, proxy_pass_to: &ProxyPassToConfig) -> (r: Option<T>)
        requires
            old(self).wf(),
        ensures
            final(self).wf(),
            final(self).max_idle() == old(self).max_idle(),
            exists|answers: Seq<bool>| #[trigger] handed_out(old(self).pools(), final(self).pools(), connection_key_spec(*proxy_pass_to), answers, r),
    {
        let key = connection_key(proxy_pass_to);
        let ghost before = idle_of(self.pools.map(), key@);
        let mut answers: Vec<bool> = Vec::new();
        match self.pools.get(&key) {
            Some(idle) => {
                let n = idle.len();
                let mut i: usize = 0;
                while i < n
                    invariant
                        n == idle@.len() == before.len(),
                        i <= n,
                        answers@.len() == i,
                    decreases n - i,
                {
                    answers.push(idle[n - 1 - i].is_disconnected());
                    i = i + 1;
                }
            },
            None => {},
        }
        let r = self.acquire_idle_with_states(proxy_pass_to, &answers);
        proof {
            assert(handed_out(old(self).pools(), self.pools(), connection_key_spec(*proxy_pass_to), answers@, r));
        }
        r
    }

    /// `acquire_idle` once each idle connection of the upstream has answered
    /// whether it is disconnected: `disconnected[i]` is the answer of the
    /// `i`-th most recently returned one.  The first live one in that order
    /// is handed out, only the disconnected ones before it are dropped, and
    /// the older ones stay idle; `None` only when every one was
    /// disconnected, and then the upstream's idle list is left empty.
    pub fn acquire_idle_with_states(&mut self, proxy_pass_to: &ProxyPassToConfig, disconnected: &Vec<bool>) -> (r: Option<T>)
        requires
            old(self).wf(),
            disconnected@.len() == idle_of(old(self).pools(), connection_key_spec(*proxy_pass_to)).len(),
        ensures
            final(self).wf(),
            final(self).max_idle() == old(self).max_idle(),
            handed_out(old(self).pools(), final(self).pools(), connection_key_spec(*proxy_pass_to), disconnected@, r),
    {
        let key = connection_key(proxy_pass_to);
        let ghost before = idle_of(self.pools.map(), key@);
        let ghost old_pools = self.pools.map();
        let ghost ans = disconnected@;
        let mut idle = match self.pools.remove(&key) {
            Some(v) => v,
            None => {
                proof {
                    assert(before.take(0) =~= Seq::<T>::empty());
                    assert(self.pools.map() =~= old_pools);
                    assert(!exists|i: int| #[trigger] first_live(ans, i));
                }
                return None;
            },
        };
        let len = idle.len();
        let mut found: Option<T> = None;
        while found.is_none() && idle.len() > 0
            invariant
                len == before.len() == ans.len(),
                disconnected@ == ans,
                idle@.len() <= before.len(),
                idle@ == before.take(idle@.len() as int),
                match found {
                    Some(c) => idle@.len() < before.len() && c == before[idle@.len() as int]
                        && first_live(ans, len - 1 - idle@.len()),
                    None => forall|j: int| 0 <= j < len - idle@.len() ==> ans[j],
                },
            decreases idle@.len(),
        {
            let ghost l = idle@.len();
            let c = idle.pop().unwrap();
            let k = len - 1 - idle.len();
            proof {
                assert(before.take(l as int)[l - 1] == before[l - 1]);
                assert(idle@ =~= before.take(idle@.len() as int));
            }
            if !disconnected[k] {
                found = Some(c);
            }
        }
        let ghost n = idle@.len() as int;
        let ghost kv = key@;
        self.pools.insert(key, idle);
        proof {
            assert(self.pools.map().dom() =~= old_pools.dom());
            assert(idle_of(self.pools.map(), kv) == before.take(n));
            if found is Some {
                    let i = len - 1 - n;
                    assert forall|m: int| #[trigger] first_live(ans, m) implies m == i by {
                        if m < i { assert(!ans[m]); assert(ans[m]); }
                        if i < m { assert(ans[i]); }
                    }
                    assert(first_live(ans, i));
                    let m = choose|m: int| #[trigger] first_live(ans, m);
                    assert(m == i);
                    assert(found == Some(before[len - 1 - m]));
            } else {
                    assert(n == 0);
                    assert(before.take(0) =~= Seq::<T>::empty());
                    assert forall|m: int| !#[trigger] first_live(ans, m) by {
                        if 0 <= m < ans.len() { assert(ans[m]); }
                    }
            }
        }
        found
    }

    /// Takes a connection back after a clean response: a disconnected one is
    /// dropped, and so is one that would put its upstream over capacity.
    /// Whether the connection is disconnected is its own answer at the time of
    /// the call; the pool ends as `released` states for that answer.
    pub fn release(&mut self, proxy_pass_to: &ProxyPassToConfig, owned: T)
        requires
            old(self).wf(),
        ensures
            final(self).wf(),
            final(self).max_idle() == old(self).max_idle(),
            released(old(self).pools(), final(self).pools(), connection_key_spec(*proxy_pass_to), owned, old(self).max_idle(), true)
                || released(old(self).pools(), final(self).pools(), connection_key_spec(*proxy_pass_to), owned, old(self).max_idle(), false),
    {
        let disconnected = owned.is_disconnected();
        self.release_with_state(proxy_pass_to, owned, disconnected);
    }

    /// `release` once the connection has answered whether it is
    /// disconnected: a disconnected connection leaves the pool as it was;
    /// a live one joins the end of its upstream's idle list if that list is
    /// under capacity, and is dropped otherwise.
    pub fn release_with_state(&mut self, proxy_pass_to: &ProxyPassToConfig, owned: T, disconnected: bool)
        requires
            old(self).wf(),
        ensures
            final(self).wf(),
            final(self).max_idle() == old(self).max_idle(),
            released(old(self).pools(), final(self).pools(), connection_key_spec(*proxy_pass_to), owned, old(self).max_idle(), disconnected),
    {
        if disconnected {
            return;
        }
        let key = connection_key(proxy_pass_to);
        let ghost old_pools = self.pools.map();
        let ghost before = idle_of(old_pools, key@);
        let mut idle = match self.pools.remove(&key) {
            Some(v) => v,
            None => {
                proof { assert(before =~= Seq::<T>::empty()); }
                Vec::new()
            },
        };
        assert(idle@ == before);
        let ghost kv = key@;
        if idle.len() < self.max_idle_per_key {
            idle.push(owned);
        }
        self.pools.insert(key, idle);
        proof {
            assert(self.pools.map().dom() =~= old_pools.dom().insert(kv));
            assert(forall|k: Seq<char>| k != kv && #[trigger] old_pools.contains_key(k) ==> self.pools.map()[k] == old_pools[k]);
            assert(idle_of(self.pools.map(), kv) == (if before.len() < self.max_idle_per_key { before.push(owned) } else { before }));
        }
    }
}

/// The pool went from `old_pools` to `new_pools` when `owned` was released
/// for `key` with capacity `max` and the connection answered `disconnected`.
pub open spec fn released<T>(old_pools: Map<Seq<char>, Vec<T>>, new_pools: Map<Seq<char>, Vec<T>>, key: Seq<char>, owned: T, max: nat, disconnected: bool) -> bool {
    let before = idle_of(old_pools, key);
    if disconnected {
        new_pools == old_pools
    } else {
        &&& new_pools.dom() == old_pools.dom().insert(key)
        &&& forall|k: Seq<char>| k != key && #[trigger] old_pools.contains_key(k) ==> new_pools[k] == old_pools[k]
        &&& idle_of(new_pools, key) == (if before.len() < max { before.push(owned) } else { before })
    }
}

/// The connection an mcp client keeps, with the moment it was parked.
pub struct McpUpstream<T> {
    slot: Option<(T, i64)>,
    registered: bool,
}

impl<T: PooledConnection> McpUpstream<T> {
    /// The kept connection and when it was parked, if any.
    pub closed spec fn kept(&self) -> Option<(T, i64)> {
        self.slot
    }

    /// Whether this slot has asked to be swept by the registry.
    pub closed spec fn is_registered(&self) -> bool {
        self.registered
    }

    pub fn new() -> (r: Self)
        ensures
            r.kept() is None,
            !r.is_registered(),
    {
        McpUpstream { slot: None, registered: false }
    }

    /// Checks the kept connection out, leaving the slot empty.  It is handed
    /// out only if it has been idle for less than the mcp idle timeout and
    /// does not report itself disconnected; otherwise it is dropped and the
    /// caller dials a fresh one.  Whether the kept connection is
    /// disconnected is its own answer at the time of the call; the result is
    /// `taken` for that answer.
    pub fn take(&mut self, now: i64) -> (r: Option<T>)
        ensures
            final(self).kept() is None,
            final(self).is_registered() == old(self).is_registered(),
            r == taken(old(self).kept(), now, true) || r == taken(old(self).kept(), now, false),
    {
        let disconnected = match &self.slot {
            Some((c, _)) => c.is_disconnected(),
            None => false,
        };
        self.take_with_state(now, disconnected)
    }

    /// `take` once the kept connection has answered whether it is
    /// disconnected: the slot is emptied, and the kept connection is handed
    /// out exactly when it is live and has been idle for less than the mcp
    /// idle timeout.
    pub fn take_with_state(&mut self, now: i64, disconnected: bool) -> (r: Option<T>)
        ensures
            final(self).kept() is None,
            final(self).is_registered() == old(self).is_registered(),
            r == taken(old(self).kept(), now, disconnected),
    {
        let kept = self.slot.take();
        match kept {
            None => None,
            Some((c, since)) => {
                if disconnected {
                    return None;
                }
                if idle_micros_expired(since, now) {
                    return None;
                }
                Some(c)
            },
        }
    }

    /// Parks a connection for the next request, stamped with `now`; a
    /// disconnected one is dropped instead.  Returns whether this is the
    /// first connection the slot keeps, when the caller registers the slot
    /// with the registry.  Whether the connection is disconnected is its own
    /// answer at the time of the call; the slot ends as `parked` states for
    /// that answer.
    pub fn put(&mut self, owned: T, now: i64) -> (first_time: bool)
        ensures
            parked(*old(self), *final(self), owned, now, true, first_time)
                || parked(*old(self), *final(self), owned, now, false, first_time),
    {
        let disconnected = owned.is_disconnected();
        self.put_with_state(owned, now, disconnected)
    }

    /// `put` once the connection has answered whether it is disconnected: a
    /// disconnected one leaves the slot as it was and returns `false`; a live
    /// one replaces whatever was kept, stamped with `now`, marks the slot
    /// registered, and returns whether it was not registered before.
    pub fn put_with_state(&mut self, owned: T, now: i64, disconnected: bool) -> (first_time: bool)
        ensures
            parked(*old(self), *final(self), owned, now, disconnected, first_time),
    {
        if disconnected {
            return false;
        }
        let first_time = !self.registered;
        self.registered = true;
        self.slot = Some((owned, now));
        first_time
    }

    /// Takes out a connection that has sat idle past the mcp idle timeout at
    /// `now`, for the caller to close; a younger one stays parked.
    pub fn evict_if_idle(&mut self, now: i64) -> (r: Option<T>)
        ensures
            final(self).is_registered() == old(self).is_registered(),
            match old(self).kept() {
                Some((c, since)) => if idle_expired(since, now) {
                    r == Some(c) && final(self).kept() is None
                } else {
                    r is None && final(self).kept() == old(self).kept()
                },
                None => r is None && final(self).kept() is None,
            },
    {
        let over_age = match &self.slot {
            Some((_, since)) => idle_micros_expired(*since, now),
            None => false,
        };
        if over_age {
            match self.slot.take() {
                Some((c, _)) => Some(c),
                None => None,
            }
        } else {
            None
        }
    }
}

/// What checking out the kept connection `kept` at `now` hands back, given
/// its answer to whether it is disconnected.
pub open spec fn taken<T>(kept: Option<(T, i64)>, now: i64, disconnected: bool) -> Option<T> {
    match kept {
        None => None,
        Some((c, since)) => if disconnected || idle_expired(since, now) { None } else { Some(c) },
    }
}

/// The slot went from `before` to `after`, with result `first_time`, when
/// `owned` was parked at `now` and answered `disconnected`.
pub open spec fn parked<T: PooledConnection>(before: McpUpstream<T>, after: McpUpstream<T>, owned: T, now: i64, disconnected: bool, first_time: bool) -> bool {
    if disconnected {
        after.kept() == before.kept() && after.is_registered() == before.is_registered() && !first_time
    } else {
        after.kept() == Some((owned, now)) && after.is_registered() && first_time == !before.is_registered()
    }
}

/// A pool never keeps more idle connections for one upstream than its
/// capacity, and its capacity is at least one.
pub proof fn lemma_idle_within_capacity<T: PooledConnection>(p: H1PoolHolder<T>, key: Seq<char>)
    requires
        p.wf(),
    ensures
        idle_of(p.pools(), key).len() <= p.max_idle(),
        p.max_idle() >= 1,
{
    if p.pools().contains_key(key) {
        assert(p.pools.map().contains_key(key));
    }
}

/// A call on the pool, as far as the history of its idle lists goes: a
/// release of `owned` under a key with the connection's answer, or a
/// checkout under a key with the idle connections' answers and what it
/// handed out.
pub enum PoolCall<T> {
    Release(Seq<char>, T, bool),
    Acquire(Seq<char>, Seq<bool>, Option<T>),
}

pub open spec fn pool_call_applied<T>(before: Map<Seq<char>, Vec<T>>, after: Map<Seq<char>, Vec<T>>, max: nat, call: PoolCall<T>) -> bool {
    match call {
        PoolCall::Release(key, owned, disconnected) => released(before, after, key, owned, max, disconnected),
        PoolCall::Acquire(key, answers, r) => handed_out(before, after, key, answers, r),
    }
}

/// `pools[i + 1]` is what `calls[i]` left of `pools[i]`, starting from a
/// pool with nothing idle.
pub open spec fn pool_history<T>(pools: Seq<Map<Seq<char>, Vec<T>>>, calls: Seq<PoolCall<T>>, max: nat) -> bool {
    &&& pools.len() == calls.len() + 1
    &&& pools[0].dom().is_empty()
    &&& forall|i: int| 0 <= i < calls.len() ==> pool_call_applied(pools[i], pools[i + 1], max, #[trigger] calls[i])
}

/// `c` was released live under `key` by one of the first `n` calls.
pub open spec fn was_released<T>(calls: Seq<PoolCall<T>>, n: int, key: Seq<char>, c: T) -> bool {
    exists|i: int| 0 <= i < n && #[trigger] calls[i] == PoolCall::Release(key, c, false)
}

pub open spec fn idle_from_releases<T>(pools: Map<Seq<char>, Vec<T>>, calls: Seq<PoolCall<T>>, n: int) -> bool {
    forall|k: Seq<char>, j: int| 0 <= j < idle_of(pools, k).len() ==> was_released(calls, n, k, #[trigger] idle_of(pools, k)[j])
}

proof fn lemma_idle_from_releases<T>(pools: Seq<Map<Seq<char>, Vec<T>>>, calls: Seq<PoolCall<T>>, max: nat, n: int)
    requires
        pool_history(pools, calls, max),
        0 <= n <= calls.len(),
    ensures
        idle_from_releases(pools[n], calls, n),
    decreases n,
{
    if n > 0 {
        let m = n - 1;
        lemma_idle_from_releases(pools, calls, max, m);
        let before = pools[m];
        let after = pools[n];
        assert(pool_call_applied(before, after, max, calls[m]));
        assert forall|k: Seq<char>, j: int| 0 <= j < idle_of(after, k).len()
            implies was_released(calls, n, k, #[trigger] idle_of(after, k)[j]) by {
            let c = idle_of(after, k)[j];
            match calls[m] {
                PoolCall::Release(key, owned, disconnected) => {
                    if k == key && !disconnected && j == idle_of(before, k).len() {
                        assert(calls[m] == PoolCall::Release(k, c, false));
                    } else {
                        if k != key && !disconnected {
                            assert(before.contains_key(k) == after.contains_key(k));
                            if before.contains_key(k) { assert(after[k] == before[k]); }
                        }
                        assert(c == idle_of(before, k)[j]);
                        let i = choose|i: int| 0 <= i < m && #[trigger] calls[i] == PoolCall::Release(k, idle_of(before, k)[j], false);
                        assert(calls[i] == PoolCall::Release(k, c, false));
                    }
                },
                PoolCall::Acquire(key, answers, r) => {
                    if k != key {
                        if before.contains_key(k) { assert(after[k] == before[k]); }
                    }
                    assert(c == idle_of(before, k)[j]);
                    let i = choose|i: int| 0 <= i < m && #[trigger] calls[i] == PoolCall::Release(k, idle_of(before, k)[j], false);
                    assert(calls[i] == PoolCall::Release(k, c, false));
                },
            }
        }
    } else {
        assert forall|k: Seq<char>, j: int| 0 <= j < idle_of(pools[0], k).len()
            implies was_released(calls, 0, k, #[trigger] idle_of(pools[0], k)[j]) by {
            assert(!pools[0].contains_key(k));
        }
    }
}

/// The pool hands out only connections that were released to it earlier,
/// live, under the same key: whatever a checkout at step `n` of a history
/// that started with nothing idle returns was the connection of a release
/// before it.
pub proof fn lemma_pool_hands_out_only_released<T>(pools: Seq<Map<Seq<char>, Vec<T>>>, calls: Seq<PoolCall<T>>, max: nat, n: int, key: Seq<char>, answers: Seq<bool>, c: T)
    requires
        pool_history(pools, calls, max),
        0 <= n < calls.len(),
        calls[n] == PoolCall::Acquire(key, answers, Some(c)),
    ensures
        was_released(calls, n, key, c),
{
    lemma_idle_from_releases(pools, calls, max, n);
    assert(pool_call_applied(pools[n], pools[n + 1], max, calls[n]));
    let before = idle_of(pools[n], key);
    let i = choose|i: int| #[trigger] first_live(answers, i);
    assert(c == before[before.len() - 1 - i]);
}

} // verus!
