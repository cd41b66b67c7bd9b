//! Automatic blocking of source addresses that keep failing.
//!
//! Every failed attempt of an address is counted in a window of
//! [`WINDOW_SECS`] seconds; once the hard or the soft count reaches its
//! threshold the address is blocked for [`BLOCK_SECS`] seconds.  Addresses on
//! the allow-list are never counted nor blocked.
//!
//! Addresses are keys of type [`IpKey`]: the address family and the
//! address's value, so IPv4 and IPv6 addresses are counted apart.  Moments
//! are Unix microseconds; the caller reads the clock and hands the reading
//! in.
use vstd::prelude::*;
use ahash::AHashMap;
use crate::text::{decimal_chars, push_decimal};

verus! {

pub const WINDOW_SECS: i64 = 15;
/// Unambiguous abuse (e.g. non-TLS bytes on a TLS port) — block quickly.
pub const HARD_FAIL_THRESHOLD: u16 = 5;
/// Noisier, possibly-benign failures on a real endpoint — must pile up.
pub const SOFT_FAIL_THRESHOLD: u16 = 30;
pub const BLOCK_SECS: i64 = 300;
pub const MICROS_PER_SECOND: i64 = 1_000_000;

/// How strong a signal a failed attempt is.
#[derive(Clone, Copy, Debug, PartialEq, Eq)]
pub enum FailureSeverity {
    Hard,
    Soft,
}

/// Per-address failure state.
#[derive(Clone, Copy, Debug, PartialEq, Eq)]
pub struct IpEntry {
    pub hard_count: u16,
    pub soft_count: u16,
    pub window_start: i64,
    pub blocked_until: Option<i64>,
}

/// Whole seconds in a span of microseconds, truncated toward zero.
pub open spec fn full_seconds(micros: int) -> int {
    if micros >= 0 {
        micros / 1_000_000
    } else {
        -((-micros) / 1_000_000)
    }
}

pub open spec fn saturating_inc(c: u16) -> u16 {
    if c < u16::MAX { (c + 1) as u16 } else { c }
}

pub open spec fn entry_blocked_at(e: IpEntry, now: i64) -> bool {
    match e.blocked_until {
        Some(until) => until > now,
        None => false,
    }
}

/// The entry an address gets on its first failure.
pub open spec fn fresh_entry(now: i64) -> IpEntry {
    IpEntry { hard_count: 0, soft_count: 0, window_start: now, blocked_until: None }
}

/// What one failure at `now` does to an entry.
pub open spec fn failure_step(e: IpEntry, severity: FailureSeverity, now: i64) -> IpEntry {
    let e1 = if full_seconds(now - e.window_start) > WINDOW_SECS {
        IpEntry { hard_count: 0, soft_count: 0, window_start: now, blocked_until: e.blocked_until }
    } else {
        e
    };
    let e2 = match severity {
        FailureSeverity::Hard => IpEntry { hard_count: saturating_inc(e1.hard_count), ..e1 },
        FailureSeverity::Soft => IpEntry { soft_count: saturating_inc(e1.soft_count), ..e1 },
    };
    if e2.hard_count >= HARD_FAIL_THRESHOLD || e2.soft_count >= SOFT_FAIL_THRESHOLD {
        IpEntry { blocked_until: Some((now + BLOCK_SECS * MICROS_PER_SECOND) as i64), ..e2 }
    } else {
        e2
    }
}

/// Whether an entry is still worth keeping at `now`: blocked, or its counting
/// window has not yet expired.
pub open spec fn entry_is_live(e: IpEntry, now: i64) -> bool {
    entry_blocked_at(e, now) || full_seconds(now - e.window_start) <= WINDOW_SECS
}

/// An address key: whether the address is IPv6, and its value (an IPv4
/// address as its 32-bit value).  The two families are kept apart, so an
/// IPv4 address and its IPv4-mapped IPv6 form are different addresses.
pub type IpKey = (bool, u128);

/// Whether `ip` falls in one of the inclusive ranges; a range holds the
/// addresses of its ends' family between them.
pub open spec fn in_ranges(ranges: Seq<(IpKey, IpKey)>, ip: IpKey) -> bool {
    exists|i: int| 0 <= i < ranges.len() && in_range(#[trigger] ranges[i], ip)
}

pub open spec fn in_range(range: (IpKey, IpKey), ip: IpKey) -> bool {
    range.0.0 == ip.0 && range.1.0 == ip.0 && range.0.1 <= ip.1 <= range.1.1
}

/// What the table of an `AHashMap<IpKey, IpEntry>` holds.
pub uninterp spec fn ip_table(m: AHashMap<IpKey, IpEntry>) -> Map<IpKey, IpEntry>;

/// `AHashMap::new`: a map that holds nothing.
#[verifier::external_body]
fn ip_table_new() -> (r: AHashMap<IpKey, IpEntry>)
    ensures
        ip_table(r).dom().is_empty(),
{
    AHashMap::new()
}

/// `AHashMap::get`: the entry under `ip`, if there is one (entries are `Copy`).
#[verifier::external_body]
fn ip_table_get(m: &AHashMap<IpKey, IpEntry>, ip: IpKey) -> (r: Option<IpEntry>)
    ensures
        r == (if ip_table(*m).contains_key(ip) { Some(ip_table(*m)[ip]) } else { None }),
{
    m.get(&ip).copied()
}

/// `AHashMap::insert`: `ip` now maps to `e`; other keys are untouched.
#[verifier::external_body]
fn ip_table_insert(m: &mut AHashMap<IpKey, IpEntry>, ip: IpKey, e: IpEntry)
    ensures
        ip_table(*final(m)) == ip_table(*old(m)).insert(ip, e),
{
    m.insert(ip, e);
}

/// `AHashMap::remove`: drops `ip` and hands back what it held.
#[verifier::external_body]
fn ip_table_remove(m: &mut AHashMap<IpKey, IpEntry>, ip: IpKey) -> (r: Option<IpEntry>)
    ensures
        r == (if ip_table(*old(m)).contains_key(ip) { Some(ip_table(*old(m))[ip]) } else { None }),
        ip_table(*final(m)) == ip_table(*old(m)).remove(ip),
{
    m.remove(&ip)
}

/// `HashMap::retain` (through `AHashMap`'s `DerefMut`): keeps exactly the
/// entries that are live at `now`.
#[verifier::external_body]
fn ip_table_retain_live(m: &mut AHashMap<IpKey, IpEntry>, now: i64)
    ensures
        ip_table(*final(m)) == ip_table(*old(m)).restrict(
            ip_table(*old(m)).dom().filter(|k: IpKey| entry_is_live(ip_table(*old(m))[k], now)),
        ),
{
    m.retain(|_, e| entry_is_live_exec(e, now));
}

/// `HashMap::iter` (through `AHashMap`'s `Deref`), each pair copied out: every
/// key of the table exactly once, with its entry, in the map's own order.
#[verifier::external_body]
fn ip_table_pairs(m: &AHashMap<IpKey, IpEntry>) -> (r: Vec<(IpKey, IpEntry)>)
    ensures
        forall|i: int| 0 <= i < r@.len() ==> ip_table(*m).contains_key(#[trigger] r@[i].0)
            && ip_table(*m)[r@[i].0] == r@[i].1,
        forall|k: IpKey| ip_table(*m).contains_key(k) ==> exists|i: int| 0 <= i < r@.len() && #[trigger] r@[i].0 == k,
        forall|i: int, j: int| 0 <= i < j < r@.len() ==> r@[i].0 != r@[j].0,
{
    m.iter().map(|(k, v)| (*k, *v)).collect()
}

pub fn entry_is_live_exec(e: &IpEntry, now: i64) -> (r: bool)
    ensures
        r == entry_is_live(*e, now),
{
    entry_blocked_at_exec(e, now) || full_seconds_exec(now as i128 - e.window_start as i128) <= WINDOW_SECS as i128
}

pub fn entry_blocked_at_exec(e: &IpEntry, now: i64) -> (r: bool)
    ensures
        r == entry_blocked_at(*e, now),
{
    match e.blocked_until {
        Some(until) => until > now,
        None => false,
    }
}

fn full_seconds_exec(micros: i128) -> (r: i128)
    requires
        -0x1_0000_0000_0000_0000 <= micros <= 0x1_0000_0000_0000_0000,
    ensures
        r == full_seconds(micros as int),
{
    if micros >= 0 {
        micros / 1_000_000
    } else {
        -((-micros) / 1_000_000)
    }
}

/// What a failure did: whether it turned the address blocked, and the counts
/// it left behind.
#[derive(Clone, Copy, Debug, PartialEq, Eq)]
pub struct FailureOutcome {
    pub newly_blocked: bool,
    pub hard_count: u16,
    pub soft_count: u16,
}

/// The log line written when a failure turns an address blocked.
pub open spec fn blocked_ip_message_spec(ip: Seq<char>, hard_count: u16, soft_count: u16) -> Seq<char> {
    "Blocked IP "@ + ip + " for "@ + decimal_chars(BLOCK_SECS as nat) + "s ("@
        + decimal_chars(hard_count as nat) + " hard / "@ + decimal_chars(soft_count as nat)
        + " soft failures within "@ + decimal_chars(WINDOW_SECS as nat) + "s)"@
}

/// `Blocked IP {ip} for 300s ({hard} hard / {soft} soft failures within 15s)`,
/// with the counts a failure left behind.
pub fn blocked_ip_message(ip: &str, outcome: &FailureOutcome) -> (r: String)
    ensures
        r@ == blocked_ip_message_spec(ip@, outcome.hard_count, outcome.soft_count),
{
    let mut r = String::from_str("Blocked IP ");
    r.append(ip);
    r.append(" for ");
    push_decimal(&mut r, BLOCK_SECS as u64);
    r.append("s (");
    push_decimal(&mut r, outcome.hard_count as u64);
    r.append(" hard / ");
    push_decimal(&mut r, outcome.soft_count as u64);
    r.append(" soft failures within ");
    push_decimal(&mut r, WINDOW_SECS as u64);
    r.append("s)");
    r
}

/// How many pairs of `s` carry an entry that is blocked at `now`.
pub open spec fn blocked_count(s: Seq<(IpKey, IpEntry)>, now: i64) -> nat
    decreases s.len(),
{
    if s.len() == 0 {
        0
    } else {
        blocked_count(s.drop_last(), now) + (if entry_blocked_at(s.last().1, now) { 1nat } else { 0nat })
    }
}

proof fn lemma_blocked_count_bound(s: Seq<(IpKey, IpEntry)>, now: i64)
    ensures
        blocked_count(s, now) <= s.len(),
    decreases s.len(),
{
    if s.len() > 0 {
        lemma_blocked_count_bound(s.drop_last(), now);
    }
}

/// For pairs with distinct keys that agree with `t`, counting the blocked
/// pairs counts the blocked keys among them.
proof fn lemma_blocked_count_is_filter_len(s: Seq<(IpKey, IpEntry)>, t: Map<IpKey, IpEntry>, now: i64)
    requires
        forall|i: int| 0 <= i < s.len() ==> t.contains_key(#[trigger] s[i].0) && t[s[i].0] == s[i].1,
        forall|a: int, b: int| 0 <= a < b < s.len() ==> s[a].0 != s[b].0,
    ensures
        s.map_values(|p: (IpKey, IpEntry)| p.0).to_set().finite(),
        blocked_count(s, now) == s.map_values(|p: (IpKey, IpEntry)| p.0).to_set().filter(
            |k: IpKey| entry_blocked_at(t[k], now),
        ).len(),
    decreases s.len(),
{
    let keys = s.map_values(|p: (IpKey, IpEntry)| p.0);
    vstd::seq_lib::seq_to_set_is_finite(keys);
    if s.len() == 0 {
        assert(keys.to_set() =~= Set::<IpKey>::empty());
        assert(keys.to_set().filter(|k: IpKey| entry_blocked_at(t[k], now)) =~= Set::<IpKey>::empty());
    } else {
        let p = s.drop_last();
        let pkeys = p.map_values(|q: (IpKey, IpEntry)| q.0);
        lemma_blocked_count_is_filter_len(p, t, now);
        let last = s.last().0;
        assert(keys =~= pkeys.push(last));
        assert(keys.to_set() =~= pkeys.to_set().insert(last)) by {
            vstd::seq_lib::seq_to_set_is_finite(pkeys);
            assert forall|k: IpKey| keys.to_set().contains(k) <==> pkeys.to_set().insert(last).contains(k) by {
                if keys.to_set().contains(k) {
                    let j = choose|j: int| 0 <= j < keys.len() && keys[j] == k;
                    if j < pkeys.len() { assert(pkeys[j] == k); }
                }
                if pkeys.to_set().contains(k) {
                    let j = choose|j: int| 0 <= j < pkeys.len() && pkeys[j] == k;
                    assert(keys[j] == k);
                }
                if k == last { assert(keys[keys.len() - 1] == k); }
            }
        }
        assert(!pkeys.to_set().contains(last)) by {
            if pkeys.to_set().contains(last) {
                let j = choose|j: int| 0 <= j < pkeys.len() && pkeys[j] == last;
                assert(s[j].0 == s[s.len() - 1].0);
            }
        }
        let f = |k: IpKey| entry_blocked_at(t[k], now);
        vstd::seq_lib::seq_to_set_is_finite(pkeys);
        if f(last) {
            assert(keys.to_set().filter(f) =~= pkeys.to_set().filter(f).insert(last));
        } else {
            assert(keys.to_set().filter(f) =~= pkeys.to_set().filter(f));
        }
    }
}

pub struct IpBlocklist {
    map: AHashMap<IpKey, IpEntry>,
    /// Allow-list as inclusive address ranges; `None` when not configured.
    white_list: Option<Vec<(IpKey, IpKey)>>,
}

impl IpBlocklist {
    /// The per-address failure state.
    pub closed spec fn table(&self) -> Map<IpKey, IpEntry> {
        ip_table(self.map)
    }

    /// The configured allow-list ranges (empty when none is configured).
    pub closed spec fn allow_ranges(&self) -> Seq<(IpKey, IpKey)> {
        match self.white_list {
            Some(v) => v@,
            None => Seq::empty(),
        }
    }

    pub open spec fn spec_is_white_listed(&self, ip: IpKey) -> bool {
        in_ranges(self.allow_ranges(), ip)
    }

    pub open spec fn spec_is_blocked(&self, ip: IpKey, now: i64) -> bool {
        &&& !self.spec_is_white_listed(ip)
        &&& self.table().contains_key(ip)
        &&& entry_blocked_at(self.table()[ip], now)
    }

    pub fn new() -> (r: Self)
        ensures
            r.table().dom().is_empty(),
            r.allow_ranges() == Seq::<(IpKey, IpKey)>::empty(),
    {
        IpBlocklist { map: ip_table_new(), white_list: None }
    }

    /// Replaces the allow-list, given as inclusive address ranges (a single
    /// address is a range of one).  `None` or an empty list disables it.
    pub fn set_white_list(&mut self, src: Option<Vec<(IpKey, IpKey)>>)
        ensures
            final(self).table() == old(self).table(),
            final(self).allow_ranges() == (match src {
                Some(v) => v@,
                None => Seq::empty(),
            }),
    {
        match src {
            Some(v) => {
                if v.len() > 0 {
                    self.white_list = Some(v);
                } else {
                    self.white_list = None;
                }
            }
            None => {
                self.white_list = None;
            }
        }
    }

    pub fn is_white_listed(&self, ip: IpKey) -> (r: bool)
        ensures
            r == self.spec_is_white_listed(ip),
    {
        match &self.white_list {
            Some(ranges) => {
                let mut i: usize = 0;
                while i < ranges.len()
                    invariant
                        0 <= i <= ranges@.len(),
                        self.allow_ranges() == ranges@,
                        forall|j: int| 0 <= j < i ==> !in_range(#[trigger] ranges@[j], ip),
                    decreases ranges@.len() - i,
                {
                    let (lo, hi) = ranges[i];
                    if lo.0 == ip.0 && hi.0 == ip.0 && lo.1 <= ip.1 && ip.1 <= hi.1 {
                        assert(ranges@[i as int] == (lo, hi));
                        return true;
                    }
                    i = i + 1;
                }
                false
            }
            None => false,
        }
    }

    /// Whether `ip` is blocked at `now`.
    pub fn is_blocked_at(&self, ip: IpKey, now: i64) -> (r: bool)
        ensures
            r == self.spec_is_blocked(ip, now),
    {
        if self.is_white_listed(ip) {
            return false;
        }
        match ip_table_get(&self.map, ip) {
            Some(e) => entry_blocked_at_exec(&e, now),
            None => false,
        }
    }

    /// A successful request: forget everything about `ip`.
    pub fn register_success(&mut self, ip: IpKey)
        ensures
            final(self).table() == old(self).table().remove(ip),
            final(self).allow_ranges() == old(self).allow_ranges(),
    {
        let _ = ip_table_remove(&mut self.map, ip);
    }

    /// Lifts any block of `ip`; tells whether there was anything to forget.
    pub fn unblock(&mut self, ip: IpKey) -> (r: bool)
        ensures
            r == old(self).table().contains_key(ip),
            final(self).table() == old(self).table().remove(ip),
            final(self).allow_ranges() == old(self).allow_ranges(),
    {
        ip_table_remove(&mut self.map, ip).is_some()
    }

    /// Counts one failed attempt of `ip` at `now`.
    pub fn register_failure_at(&mut self, ip: IpKey, severity: FailureSeverity, now: i64) -> (r: FailureOutcome)
        requires
            now <= i64::MAX - BLOCK_SECS * MICROS_PER_SECOND,
        ensures
            final(self).allow_ranges() == old(self).allow_ranges(),
            old(self).spec_is_white_listed(ip) ==> {
                &&& final(self).table() == old(self).table()
                &&& !r.newly_blocked
            },
            !old(self).spec_is_white_listed(ip) ==> {
                let before = if old(self).table().contains_key(ip) {
                    old(self).table()[ip]
                } else {
                    fresh_entry(now)
                };
                let after = failure_step(before, severity, now);
                &&& final(self).table() == old(self).table().insert(ip, after)
                &&& r.newly_blocked == (entry_blocked_at(after, now) && !entry_blocked_at(before, now))
                &&& r.hard_count == after.hard_count
                &&& r.soft_count == after.soft_count
            },
    {
        if self.is_white_listed(ip) {
            return FailureOutcome { newly_blocked: false, hard_count: 0, soft_count: 0 };
        }
        let before = match ip_table_get(&self.map, ip) {
            Some(e) => e,
            None => IpEntry { hard_count: 0, soft_count: 0, window_start: now, blocked_until: None },
        };
        let mut entry = before;
        if full_seconds_exec(now as i128 - entry.window_start as i128) > WINDOW_SECS as i128 {
            entry.hard_count = 0;
            entry.soft_count = 0;
            entry.window_start = now;
        }
        let was_blocked = entry_blocked_at_exec(&entry, now);
        match severity {
            FailureSeverity::Hard => entry.hard_count = entry.hard_count.saturating_add(1),
            FailureSeverity::Soft => entry.soft_count = entry.soft_count.saturating_add(1),
        }
        if entry.hard_count >= HARD_FAIL_THRESHOLD || entry.soft_count >= SOFT_FAIL_THRESHOLD {
            entry.blocked_until = Some(now + BLOCK_SECS * MICROS_PER_SECOND);
        }
        let blocked_now = entry_blocked_at_exec(&entry, now);
        ip_table_insert(&mut self.map, ip, entry);
        FailureOutcome {
            newly_blocked: blocked_now && !was_blocked,
            hard_count: entry.hard_count,
            soft_count: entry.soft_count,
        }
    }

    /// Drops the entries that are neither blocked nor inside their counting
    /// window at `now`, and returns how many addresses remain blocked.
    pub fn cleanup_at(&mut self, now: i64) -> (r: usize)
        ensures
            final(self).allow_ranges() == old(self).allow_ranges(),
            final(self).table() == old(self).table().restrict(
                old(self).table().dom().filter(|k: IpKey| entry_is_live(old(self).table()[k], now)),
            ),
            r == final(self).table().dom().filter(|k: IpKey| entry_blocked_at(final(self).table()[k], now)).len(),
    {
        ip_table_retain_live(&mut self.map, now);
        let pairs = ip_table_pairs(&self.map);
        let ghost t = ip_table(self.map);
        let mut count: usize = 0;
        let mut i: usize = 0;
        while i < pairs.len()
            invariant
                0 <= i <= pairs@.len(),
                count as nat == blocked_count(pairs@.subrange(0, i as int), now),
            decreases pairs@.len() - i,
        {
            proof {
                assert(pairs@.subrange(0, i + 1).drop_last() == pairs@.subrange(0, i as int));
            }
            if entry_blocked_at_exec(&pairs[i].1, now) {
                proof { lemma_blocked_count_bound(pairs@.subrange(0, i as int), now); }
                count = count + 1;
            }
            i = i + 1;
        }
        proof {
            assert(pairs@.subrange(0, pairs@.len() as int) == pairs@);
            lemma_blocked_count_is_filter_len(pairs@, t, now);
            let keys = pairs@.map_values(|p: (IpKey, IpEntry)| p.0);
            assert(keys.to_set() =~= t.dom()) by {
                assert forall|k: IpKey| t.dom().contains(k) implies keys.to_set().contains(k) by {
                    let j = choose|j: int| 0 <= j < pairs@.len() && #[trigger] pairs@[j].0 == k;
                    assert(keys[j] == k);
                }
                assert forall|k: IpKey| keys.to_set().contains(k) implies t.dom().contains(k) by {
                    let j = choose|j: int| 0 <= j < keys.len() && #[trigger] keys[j] == k;
                    assert(pairs@[j].0 == k);
                }
            }
        }
        count
    }
}


/// The entry left by `n` failures of one severity, all at `now`, starting
/// from `e`.
pub open spec fn repeat_failures(e: IpEntry, severity: FailureSeverity, n: nat, now: i64) -> IpEntry
    decreases n,
{
    if n == 0 {
        e
    } else {
        failure_step(repeat_failures(e, severity, (n - 1) as nat, now), severity, now)
    }
}

proof fn lemma_repeat_from_fresh(severity: FailureSeverity, n: nat, now: i64)
    requires
        now <= i64::MAX - BLOCK_SECS * MICROS_PER_SECOND,
    ensures
        ({
            let e = repeat_failures(fresh_entry(now), severity, n, now);
            let count: int = if n < u16::MAX { n as int } else { u16::MAX as int };
            let threshold: int = match severity {
                FailureSeverity::Hard => HARD_FAIL_THRESHOLD as int,
                FailureSeverity::Soft => SOFT_FAIL_THRESHOLD as int,
            };
            &&& e.window_start == now
            &&& match severity {
                FailureSeverity::Hard => e.hard_count == count && e.soft_count == 0,
                FailureSeverity::Soft => e.soft_count == count && e.hard_count == 0,
            }
            &&& e.blocked_until == (if count >= threshold {
                Some((now + BLOCK_SECS * MICROS_PER_SECOND) as i64)
            } else {
                None
            })
        }),
    decreases n,
{
    if n > 0 {
        lemma_repeat_from_fresh(severity, (n - 1) as nat, now);
    }
}

/// An address with no record is blocked by its fifth hard failure, and not
/// before: `n` hard failures at one moment leave it blocked exactly when
/// `n >= HARD_FAIL_THRESHOLD`.
pub proof fn lemma_hard_failures_block_at_threshold(n: nat, now: i64)
    requires
        now <= i64::MAX - BLOCK_SECS * MICROS_PER_SECOND,
    ensures
        entry_blocked_at(repeat_failures(fresh_entry(now), FailureSeverity::Hard, n, now), now)
            <==> n >= HARD_FAIL_THRESHOLD,
{
    lemma_repeat_from_fresh(FailureSeverity::Hard, n, now);
}

/// Soft failures must pile up: `n` soft failures at one moment leave an
/// address with no record blocked exactly when `n >= SOFT_FAIL_THRESHOLD`.
pub proof fn lemma_soft_failures_block_at_threshold(n: nat, now: i64)
    requires
        now <= i64::MAX - BLOCK_SECS * MICROS_PER_SECOND,
    ensures
        entry_blocked_at(repeat_failures(fresh_entry(now), FailureSeverity::Soft, n, now), now)
            <==> n >= SOFT_FAIL_THRESHOLD,
{
    lemma_repeat_from_fresh(FailureSeverity::Soft, n, now);
}

/// A failure that crosses a threshold blocks the address for exactly
/// `BLOCK_SECS` seconds from that moment.
pub proof fn lemma_block_lasts_block_secs(e: IpEntry, severity: FailureSeverity, now: i64, later: i64)
    requires
        now <= i64::MAX - BLOCK_SECS * MICROS_PER_SECOND,
        now <= later,
        ({
            let after = failure_step(e, severity, now);
            after.hard_count >= HARD_FAIL_THRESHOLD || after.soft_count >= SOFT_FAIL_THRESHOLD
        }),
    ensures
        entry_blocked_at(failure_step(e, severity, now), later)
            <==> later < now + BLOCK_SECS * MICROS_PER_SECOND,
{
}

/// Failures older than the counting window are forgotten: a failure more
/// than `WINDOW_SECS` full seconds after the window opened starts a new
/// window in which it is the only failure.
pub proof fn lemma_window_expiry_restarts_count(e: IpEntry, severity: FailureSeverity, now: i64)
    requires
        full_seconds(now - e.window_start) > WINDOW_SECS,
    ensures
        failure_step(e, severity, now).window_start == now,
        failure_step(e, severity, now).hard_count == (match severity {
            FailureSeverity::Hard => 1int,
            FailureSeverity::Soft => 0int,
        }),
        failure_step(e, severity, now).soft_count == (match severity {
            FailureSeverity::Hard => 0int,
            FailureSeverity::Soft => 1int,
        }),
{
}

/// A failure never lifts a block: an entry blocked at `now` is still blocked
/// at `now` after another failure.
pub proof fn lemma_failures_never_lift_a_block(e: IpEntry, severity: FailureSeverity, now: i64)
    requires
        now <= i64::MAX - BLOCK_SECS * MICROS_PER_SECOND,
        entry_blocked_at(e, now),
    ensures
        entry_blocked_at(failure_step(e, severity, now), now),
{
}

/// An address on the allow-list is never reported blocked, whatever its
/// record holds.
pub proof fn lemma_allow_listed_never_blocked(b: IpBlocklist, ip: IpKey, now: i64)
    requires
        b.spec_is_white_listed(ip),
    ensures
        !b.spec_is_blocked(ip, now),
{
}

/// After `register_success` or `unblock` of `ip` (whose contracts remove
/// `ip` from the table) the address is not blocked at any moment.
pub proof fn lemma_forgotten_address_is_not_blocked(before: IpBlocklist, after: IpBlocklist, ip: IpKey, t: i64)
    requires
        after.table() == before.table().remove(ip),
    ensures
        !after.spec_is_blocked(ip, t),
{
}

/// Cleanup never lifts a block: an address blocked at `now` before
/// `cleanup_at(now)` is still blocked at `now` after it, with the same entry.
pub proof fn lemma_cleanup_keeps_blocks(before: IpBlocklist, after: IpBlocklist, ip: IpKey, now: i64)
    requires
        after.allow_ranges() == before.allow_ranges(),
        after.table() == before.table().restrict(
            before.table().dom().filter(|k: IpKey| entry_is_live(before.table()[k], now)),
        ),
        before.spec_is_blocked(ip, now),
    ensures
        after.spec_is_blocked(ip, now),
        after.table()[ip] == before.table()[ip],
{
    assert(before.table().dom().filter(|k: IpKey| entry_is_live(before.table()[k], now)).contains(ip));
}

/// Cleanup drops exactly the records that are neither blocked nor inside
/// their counting window.
pub proof fn lemma_cleanup_drops_stale_records(before: IpBlocklist, after: IpBlocklist, ip: IpKey, now: i64)
    requires
        after.table() == before.table().restrict(
            before.table().dom().filter(|k: IpKey| entry_is_live(before.table()[k], now)),
        ),
        before.table().contains_key(ip),
    ensures
        after.table().contains_key(ip) <==> entry_is_live(before.table()[ip], now),
{
}

/// A call on the block-list, as far as the history of one address goes.
pub enum BlocklistCall {
    Failure(IpKey, FailureSeverity, i64),
    Success(IpKey),
    Unblock(IpKey),
    Cleanup(i64),
}

/// `after` is what the call leaves of `before`, as the call's own contract
/// states it.
pub open spec fn call_applied(before: IpBlocklist, after: IpBlocklist, call: BlocklistCall) -> bool {
    &&& after.allow_ranges() == before.allow_ranges()
    &&& match call {
        BlocklistCall::Failure(ip, severity, now) => if before.spec_is_white_listed(ip) {
            after.table() == before.table()
        } else {
            let e = if before.table().contains_key(ip) { before.table()[ip] } else { fresh_entry(now) };
            after.table() == before.table().insert(ip, failure_step(e, severity, now))
        },
        BlocklistCall::Success(ip) => after.table() == before.table().remove(ip),
        BlocklistCall::Unblock(ip) => after.table() == before.table().remove(ip),
        BlocklistCall::Cleanup(now) => after.table() == before.table().restrict(
            before.table().dom().filter(|k: IpKey| entry_is_live(before.table()[k], now)),
        ),
    }
}

/// The call neither forgets `ip` nor happens outside `[from, until]`.
pub open spec fn call_keeps(call: BlocklistCall, ip: IpKey, from: i64, until: i64) -> bool {
    match call {
        BlocklistCall::Failure(_, _, t) => from <= t <= until && t <= i64::MAX - BLOCK_SECS * MICROS_PER_SECOND,
        BlocklistCall::Success(x) => x != ip,
        BlocklistCall::Unblock(x) => x != ip,
        BlocklistCall::Cleanup(t) => from <= t <= until,
    }
}

/// `states[i + 1]` is what `calls[i]` left of `states[i]`, for every call.
pub open spec fn history(states: Seq<IpBlocklist>, calls: Seq<BlocklistCall>) -> bool {
    &&& states.len() == calls.len() + 1
    &&& forall|i: int| 0 <= i < calls.len() ==> call_applied(states[i], states[i + 1], #[trigger] calls[i])
}

proof fn lemma_one_call_keeps_block(before: IpBlocklist, after: IpBlocklist, call: BlocklistCall, ip: IpKey, now: i64, later: i64)
    requires
        call_applied(before, after, call),
        call_keeps(call, ip, now, later),
        later < now + BLOCK_SECS * MICROS_PER_SECOND,
        before.spec_is_blocked(ip, later),
    ensures
        after.spec_is_blocked(ip, later),
{
    match call {
        BlocklistCall::Cleanup(t) => {
            assert(entry_is_live(before.table()[ip], t));
            assert(before.table().dom().filter(|k: IpKey| entry_is_live(before.table()[k], t)).contains(ip));
        },
        _ => {},
    }
}

proof fn lemma_block_persists(states: Seq<IpBlocklist>, calls: Seq<BlocklistCall>, ip: IpKey, now: i64, later: i64, k: int)
    requires
        history(states, calls),
        1 <= k <= calls.len(),
        later < now + BLOCK_SECS * MICROS_PER_SECOND,
        forall|i: int| 1 <= i < calls.len() ==> call_keeps(#[trigger] calls[i], ip, now, later),
        states[k].spec_is_blocked(ip, later),
    ensures
        forall|i: int| k <= i < states.len() ==> (#[trigger] states[i]).spec_is_blocked(ip, later),
    decreases calls.len() - k,
{
    if k < calls.len() {
        assert(call_applied(states[k], states[k + 1], calls[k]));
        assert(call_keeps(calls[k], ip, now, later));
        lemma_one_call_keeps_block(states[k], states[k + 1], calls[k], ip, now, later);
        lemma_block_persists(states, calls, ip, now, later, k + 1);
    }
}

/// An address stays blocked for `BLOCK_SECS` seconds after a failure that
/// blocks it: whatever failures (of any address) and cleanups follow within
/// that time, and whatever successes or unblocks of other addresses, it is
/// blocked at every moment `later` before the block runs out.  Only
/// `register_success` or `unblock` of the address itself lift the block
/// early.
pub proof fn lemma_blocked_for_block_secs(
    states: Seq<IpBlocklist>,
    calls: Seq<BlocklistCall>,
    ip: IpKey,
    severity: FailureSeverity,
    now: i64,
    later: i64,
)
    requires
        history(states, calls),
        calls.len() >= 1,
        calls[0] == BlocklistCall::Failure(ip, severity, now),
        now <= i64::MAX - BLOCK_SECS * MICROS_PER_SECOND,
        !states[0].spec_is_white_listed(ip),
        ({
            let e = if states[0].table().contains_key(ip) { states[0].table()[ip] } else { fresh_entry(now) };
            let after = failure_step(e, severity, now);
            after.hard_count >= HARD_FAIL_THRESHOLD || after.soft_count >= SOFT_FAIL_THRESHOLD
        }),
        now <= later < now + BLOCK_SECS * MICROS_PER_SECOND,
        forall|i: int| 1 <= i < calls.len() ==> call_keeps(#[trigger] calls[i], ip, now, later),
    ensures
        forall|i: int| 1 <= i < states.len() ==> (#[trigger] states[i]).spec_is_blocked(ip, later),
{
    assert(call_applied(states[0], states[1], calls[0]));
    assert(states[1].spec_is_blocked(ip, later));
    lemma_block_persists(states, calls, ip, now, later, 1);
}

} // verus!
