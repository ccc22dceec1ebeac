//! Network throughput: bytes moved since the previous poll over the time
//! since that poll.

use crate::fraction::Fraction;
use vstd::prelude::*;

verus! {

#[verifier::external_type_specification]
#[verifier::external_body]
pub struct ExInstant(std::time::Instant);

#[verifier::external_type_specification]
#[verifier::external_body]
pub struct ExNetworks(sysinfo::Networks);

#[verifier::external_type_specification]
#[verifier::external_body]
pub struct ExNetworkData(sysinfo::NetworkData);


/// Relies on std::time::Instant::now: a reading of the monotonic clock.
#[verifier::external_body]
fn instant_now() -> std::time::Instant {
    std::time::Instant::now()
}

/// Relies on std::time::Instant::elapsed: nanoseconds from `origin` to now.
#[verifier::external_body]
fn nanos_since(origin: &std::time::Instant) -> u128 {
    origin.elapsed().as_nanos()
}

/// Relies on sysinfo::Networks::new_with_refreshed_list: a session that already
/// knows the current interfaces.
#[verifier::external_body]
fn open_networks() -> sysinfo::Networks {
    sysinfo::Networks::new_with_refreshed_list()
}

/// Relies on sysinfo::Networks::refresh_list: re-enumerates the interfaces and
/// loads the byte counts moved since the previous refresh.
#[verifier::external_body]
fn refresh_network_list(networks: &mut sysinfo::Networks) {
    networks.refresh_list()
}

/// Bytes sent and received since the previous refresh, of each interface
/// that a session knows, by name.
pub uninterp spec fn networks_of(n: sysinfo::Networks) -> Map<Seq<char>, (u64, u64)>;

/// The readings name each interface of `m` once, with its counts.
pub open spec fn lists_interfaces(v: Seq<NetworkReading>, m: Map<Seq<char>, (u64, u64)>) -> bool {
    &&& forall|k: int| 0 <= k < v.len() ==> m.contains_key((#[trigger] v[k]).name@)
        && m[v[k].name@] == (v[k].transmitted, v[k].received)
    &&& forall|j: int, k: int| 0 <= j < k < v.len() ==> (#[trigger] v[j]).name@ != (#[trigger] v[k]).name@
    &&& forall|n: Seq<char>| m.contains_key(n) ==> exists|k: int| 0 <= k < v.len() && (#[trigger] v[k]).name@ == n
}

/// Relies on sysinfo::Networks::list: the known interfaces, a map by name,
/// each turned into its name and the bytes sent and received since the
/// previous refresh.
#[verifier::external_body]
fn network_readings(networks: &sysinfo::Networks) -> (r: Vec<NetworkReading>)
    ensures
        lists_interfaces(r@, networks_of(*networks)),
{
    networks
        .list()
        .iter()
        .map(|(name, data)| NetworkReading {
            name: name.clone(),
            transmitted: data.transmitted(),
            received: data.received(),
        })
        .collect()
}

/// Measures the time between successive polls of one resource.
pub struct RefreshTime {
    pub origin: std::time::Instant,
    /// Nanoseconds from `origin` to the previous poll.
    pub last: u128,
}

/// Time from the previous poll at `last` to a poll at `now`; a clock that
/// seems to run backwards gives zero.
pub open spec fn span(last: u128, now: u128) -> u128 {
    if now >= last {
        (now - last) as u128
    } else {
        0
    }
}

impl RefreshTime {
    /// A clock whose previous poll is now.
    pub fn new() -> (r: RefreshTime)
        ensures
            r.last == 0,
    {
        RefreshTime { origin: instant_now(), last: 0 }
    }

    /// Records a poll at `now` and returns the time since the previous one.
    pub fn advance(&mut self, now: u128) -> (elapsed: u128)
        ensures
            elapsed == span(old(self).last, now),
            final(self).last == now,
            final(self).origin == old(self).origin,
    {
        let elapsed = if now >= self.last {
            now - self.last
        } else {
            0
        };
        self.last = now;
        elapsed
    }

    /// Records a poll at the current time and returns the nanoseconds since
    /// the previous one.
    pub fn next_refresh(&mut self) -> (elapsed: u128)
        ensures
            elapsed == span(old(self).last, final(self).last),
            final(self).origin == old(self).origin,
    {
        let now = nanos_since(&self.origin);
        self.advance(now)
    }
}

/// Byte counts of one interface since the previous refresh.
pub struct NetworkReading {
    pub name: String,
    pub transmitted: u64,
    pub received: u64,
}

/// Throughput of one interface in bytes per second; `None` where no time
/// has passed.
pub struct InterfaceRate {
    pub name: String,
    pub up: Option<Fraction>,
    pub down: Option<Fraction>,
}

/// Nanoseconds in a second.
pub const NANOS_PER_SECOND: u128 = 1_000_000_000;

/// `bytes` per second over `nanos` nanoseconds.
pub open spec fn rate(bytes: u64, nanos: u128) -> Option<Fraction> {
    if nanos == 0 {
        None
    } else {
        Some(Fraction { num: (bytes * NANOS_PER_SECOND) as u128, den: nanos })
    }
}

pub open spec fn rate_matches(r: InterfaceRate, n: NetworkReading, nanos: u128) -> bool {
    &&& r.name@ == n.name@
    &&& r.up == rate(n.transmitted, nanos)
    &&& r.down == rate(n.received, nanos)
}

/// `bytes` per second over `nanos` nanoseconds, as an exact fraction.
pub fn rate_of(bytes: u64, nanos: u128) -> (r: Option<Fraction>)
    ensures
        r == rate(bytes, nanos),
{
    if nanos == 0 {
        None
    } else {
        assert(bytes * NANOS_PER_SECOND <= u128::MAX) by (nonlinear_arith)
            requires bytes <= u64::MAX;
        Some(Fraction { num: bytes as u128 * NANOS_PER_SECOND, den: nanos })
    }
}

/// The throughput of each interface over `nanos` nanoseconds.
pub fn interface_rates(readings: &Vec<NetworkReading>, nanos: u128) -> (r: Vec<InterfaceRate>)
    ensures
        r@.len() == readings@.len(),
        forall|k: int| 0 <= k < r@.len() ==> rate_matches(#[trigger] r@[k], readings@[k], nanos),
{
    let mut r: Vec<InterfaceRate> = Vec::new();
    let mut i: usize = 0;
    while i < readings.len()
        invariant
            i <= readings@.len(),
            r@.len() == i,
            forall|k: int| 0 <= k < i ==> rate_matches(#[trigger] r@[k], readings@[k], nanos),
        decreases readings@.len() - i,
    {
        let n = &readings[i];
        r.push(InterfaceRate { name: n.name.clone(), up: rate_of(n.transmitted, nanos), down: rate_of(n.received, nanos) });
        i = i + 1;
    }
    r
}

/// The network session and the clock of its previous poll, held together so
/// that a poll refreshes the counters and restarts the clock as one step.
pub struct NetworkSampler {
    pub clock: RefreshTime,
    pub networks: sysinfo::Networks,
}

impl NetworkSampler {
    pub fn new() -> (r: NetworkSampler)
        ensures
            r.clock.last == 0,
    {
        NetworkSampler { clock: RefreshTime::new(), networks: open_networks() }
    }
}

/// Re-enumerates the interfaces and reports, for each, the bytes moved since
/// the previous poll over the time since that poll.
pub fn net(sampler: &mut NetworkSampler) -> (r: Vec<InterfaceRate>)
    ensures
        final(sampler).clock.origin == old(sampler).clock.origin,
        forall|k: int| 0 <= k < r@.len() ==> {
            let e = span(old(sampler).clock.last, final(sampler).clock.last);
            let m = networks_of(final(sampler).networks);
            &&& m.contains_key((#[trigger] r@[k]).name@)
            &&& r@[k].up == rate(m[r@[k].name@].0, e)
            &&& r@[k].down == rate(m[r@[k].name@].1, e)
        },
        forall|j: int, k: int| 0 <= j < k < r@.len() ==> (#[trigger] r@[j]).name@ != (#[trigger] r@[k]).name@,
        forall|n: Seq<char>| networks_of(final(sampler).networks).contains_key(n)
            ==> exists|k: int| 0 <= k < r@.len() && (#[trigger] r@[k]).name@ == n,
{
    refresh_network_list(&mut sampler.networks);
    let elapsed = sampler.clock.next_refresh();
    let readings = network_readings(&sampler.networks);
    let r = interface_rates(&readings, elapsed);
    let ghost m = networks_of(sampler.networks);
    assert forall|k: int| 0 <= k < r@.len() implies m.contains_key((#[trigger] r@[k]).name@)
        && r@[k].up == rate(m[r@[k].name@].0, elapsed) && r@[k].down == rate(m[r@[k].name@].1, elapsed) by {
        assert(rate_matches(r@[k], readings@[k], elapsed));
        assert(m.contains_key(readings@[k].name@));
    }
    assert forall|j: int, k: int| 0 <= j < k < r@.len() implies (#[trigger] r@[j]).name@ != (#[trigger] r@[k]).name@ by {
        assert(rate_matches(r@[j], readings@[j], elapsed));
        assert(rate_matches(r@[k], readings@[k], elapsed));
        assert(readings@[j].name@ != readings@[k].name@);
    }
    assert forall|n: Seq<char>| m.contains_key(n) implies exists|k: int| 0 <= k < r@.len() && (#[trigger] r@[k]).name@ == n by {
        let k = choose|k: int| 0 <= k < readings@.len() && (#[trigger] readings@[k]).name@ == n;
        assert(rate_matches(r@[k], readings@[k], elapsed));
    }
    r
}

/// A rate over a positive interval is a well-formed, non-negative number of
/// bytes per second: the bytes moved over the seconds between the two polls.
pub proof fn lemma_rate_over_interval(clock: RefreshTime, now: u128, bytes: u64)
    requires
        now > clock.last,
    ensures
        span(clock.last, now) > 0,
        rate(bytes, span(clock.last, now)) matches Some(f) && f.well_formed()
            && f.num == bytes * NANOS_PER_SECOND && f.den == now - clock.last,
{
}

} // verus!
