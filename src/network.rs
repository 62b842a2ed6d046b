use vstd::prelude::*;

verus! {

/// Byte counters of one network interface, as read after a refresh.
///
/// `received` and `transmitted` count the bytes moved since the previous
/// refresh; the two totals count them since the interface came up.
#[derive(Clone, Copy, Debug, PartialEq, Eq, Structural)]
pub struct InterfaceCounters {
    pub received: u64,
    pub transmitted: u64,
    pub total_received: u64,
    pub total_transmitted: u64,
}

/// Traffic of one cycle, summed over every interface.
#[derive(Clone, Copy, Debug, PartialEq, Eq, Structural)]
pub struct NetworkUsage {
    pub received: u64,
    pub transmitted: u64,
    pub received_speed: u64,
    pub transmitted_speed: u64,
    pub total_received: u64,
    pub total_transmitted: u64,
}

/// A sum as a `u64` can hold it: the largest `u64` where the sum is larger.
pub open spec fn capped(x: int) -> int {
    if x > u64::MAX {
        u64::MAX as int
    } else {
        x
    }
}

/// The four counters of an interface.
pub enum Counter {
    Received,
    Transmitted,
    TotalReceived,
    TotalTransmitted,
}

/// The value of one counter of an interface.
pub open spec fn counter(c: InterfaceCounters, k: Counter) -> u64 {
    match k {
        Counter::Received => c.received,
        Counter::Transmitted => c.transmitted,
        Counter::TotalReceived => c.total_received,
        Counter::TotalTransmitted => c.total_transmitted,
    }
}

/// Sum of one counter over a list of interfaces.
pub open spec fn sum_of(s: Seq<InterfaceCounters>, k: Counter) -> nat
    decreases s.len(),
{
    if s.len() == 0 {
        0
    } else {
        (sum_of(s.drop_last(), k) + counter(s.last(), k)) as nat
    }
}

/// A counter summed over a list of interfaces, as a `u64` holds it.
pub open spec fn capped_sum(s: Seq<InterfaceCounters>, k: Counter) -> u64 {
    capped(sum_of(s, k) as int) as u64
}

/// Bytes per second over an interval: floor division, and zero for an
/// interval of zero seconds.
pub open spec fn rate(bytes: u64, interval_seconds: u64) -> u64 {
    if interval_seconds == 0 {
        0
    } else {
        (bytes / interval_seconds) as u64
    }
}

/// What a cycle reports of its interfaces, over an interval of the given length.
pub open spec fn usage_of(s: Seq<InterfaceCounters>, interval_seconds: u64) -> NetworkUsage {
    let received = capped_sum(s, Counter::Received);
    let transmitted = capped_sum(s, Counter::Transmitted);
    NetworkUsage {
        received,
        transmitted,
        received_speed: rate(received, interval_seconds),
        transmitted_speed: rate(transmitted, interval_seconds),
        total_received: capped_sum(s, Counter::TotalReceived),
        total_transmitted: capped_sum(s, Counter::TotalTransmitted),
    }
}

/// Bytes per second over `interval_seconds`, rounded down; zero when the
/// interval is zero, so that no division by zero can happen.
pub fn per_second(bytes: u64, interval_seconds: u64) -> (r: u64)
    ensures
        r == rate(bytes, interval_seconds),
{
    if interval_seconds == 0 {
        0
    } else {
        bytes / interval_seconds
    }
}

proof fn lemma_capped_step(s: Seq<InterfaceCounters>, i: int, k: Counter)
    requires
        0 <= i < s.len(),
    ensures
        capped_sum(s.take(i + 1), k) == capped(capped_sum(s.take(i), k) + counter(s[i], k)),
{
    assert(s.take(i + 1).drop_last() =~= s.take(i));
}

/// Sums the counters of every interface and derives the cycle's rates.
///
/// A sum that would not fit in a `u64` stays at the largest `u64` rather
/// than wrapping; an empty list gives zero everywhere.
pub fn aggregate(interfaces: &Vec<InterfaceCounters>, interval_seconds: u64) -> (r: NetworkUsage)
    ensures
        r == usage_of(interfaces@, interval_seconds),
{
    let mut received: u64 = 0;
    let mut transmitted: u64 = 0;
    let mut total_received: u64 = 0;
    let mut total_transmitted: u64 = 0;
    let mut i: usize = 0;
    while i < interfaces.len()
        invariant
            i <= interfaces@.len(),
            received == capped_sum(interfaces@.take(i as int), Counter::Received),
            transmitted == capped_sum(interfaces@.take(i as int), Counter::Transmitted),
            total_received == capped_sum(interfaces@.take(i as int), Counter::TotalReceived),
            total_transmitted == capped_sum(interfaces@.take(i as int), Counter::TotalTransmitted),
        decreases interfaces@.len() - i,
    {
        let c = interfaces[i];
        proof {
            lemma_capped_step(interfaces@, i as int, Counter::Received);
            lemma_capped_step(interfaces@, i as int, Counter::Transmitted);
            lemma_capped_step(interfaces@, i as int, Counter::TotalReceived);
            lemma_capped_step(interfaces@, i as int, Counter::TotalTransmitted);
        }
        received = received.saturating_add(c.received);
        transmitted = transmitted.saturating_add(c.transmitted);
        total_received = total_received.saturating_add(c.total_received);
        total_transmitted = total_transmitted.saturating_add(c.total_transmitted);
        i = i + 1;
    }
    assert(interfaces@.take(i as int) =~= interfaces@);
    NetworkUsage {
        received,
        transmitted,
        received_speed: per_second(received, interval_seconds),
        transmitted_speed: per_second(transmitted, interval_seconds),
        total_received,
        total_transmitted,
    }
}

/// Over an interval of at least one second, each speed is the cycle's byte
/// count divided by the interval and rounded down, whatever the interfaces
/// reported.
pub proof fn lemma_speed_is_floor_quotient(interfaces: Seq<InterfaceCounters>, interval_seconds: u64)
    requires
        interval_seconds >= 1,
    ensures
        ({
            let u = usage_of(interfaces, interval_seconds);
            &&& u.received_speed == u.received / interval_seconds
            &&& u.transmitted_speed == u.transmitted / interval_seconds
            &&& u.received_speed * interval_seconds <= u.received
            &&& u.received < (u.received_speed + 1) * interval_seconds
            &&& u.transmitted_speed * interval_seconds <= u.transmitted
            &&& u.transmitted < (u.transmitted_speed + 1) * interval_seconds
        }),
{
    let u = usage_of(interfaces, interval_seconds);
    let d = interval_seconds as int;
    let (rx, rxs) = (u.received as int, u.received_speed as int);
    let (tx, txs) = (u.transmitted as int, u.transmitted_speed as int);
    assert(rxs * d <= rx && rx < (rxs + 1) * d) by (nonlinear_arith)
        requires
            d >= 1,
            rx >= 0,
            rxs == rx / d,
    ;
    assert(txs * d <= tx && tx < (txs + 1) * d) by (nonlinear_arith)
        requires
            d >= 1,
            tx >= 0,
            txs == tx / d,
    ;
}

/// With no interface reported, every traffic figure is zero, whatever the
/// interval (zero included).
pub proof fn lemma_no_interfaces(interval_seconds: u64)
    ensures
        usage_of(Seq::empty(), interval_seconds) == (NetworkUsage {
            received: 0,
            transmitted: 0,
            received_speed: 0,
            transmitted_speed: 0,
            total_received: 0,
            total_transmitted: 0,
        }),
{
    assert(rate(0, interval_seconds) == 0);
}

} // verus!
