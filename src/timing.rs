use vstd::prelude::*;

verus! {

pub const NANOS_PER_SEC: u32 = 1_000_000_000;

/// A length of time as whole seconds and the nanoseconds beyond them.
#[derive(Clone, Copy, Debug, PartialEq, Eq, Structural)]
pub struct Span {
    pub secs: u64,
    pub nanos: u32,
}

impl Span {
    /// The nanoseconds part is below one second.
    pub open spec fn wf(self) -> bool {
        self.nanos < NANOS_PER_SEC
    }

    pub open spec fn as_nanos(self) -> int {
        self.secs * NANOS_PER_SEC + self.nanos
    }
}

pub open spec fn interval_nanos(interval_seconds: u64) -> int {
    interval_seconds * NANOS_PER_SEC
}

/// How long a cycle sleeps after its work took `elapsed`: what is left of
/// the interval, and nothing once the work has used all of it.
pub open spec fn sleep_nanos(interval_seconds: u64, elapsed: Span) -> int {
    if elapsed.as_nanos() < interval_nanos(interval_seconds) {
        interval_nanos(interval_seconds) - elapsed.as_nanos()
    } else {
        0
    }
}

/// Time from the start of a cycle to the start of the next one.
pub open spec fn period_nanos(interval_seconds: u64, elapsed: Span) -> int {
    elapsed.as_nanos() + sleep_nanos(interval_seconds, elapsed)
}

/// The sleep that ends a cycle whose sampling and reporting took `elapsed`:
/// the rest of the interval, never negative.
pub fn sleep_after(interval_seconds: u64, elapsed: Span) -> (r: Span)
    ensures
        r.wf(),
        r.as_nanos() == sleep_nanos(interval_seconds, elapsed),
{
    let budget: u128 = interval_seconds as u128 * NANOS_PER_SEC as u128;
    let used: u128 = elapsed.secs as u128 * NANOS_PER_SEC as u128 + elapsed.nanos as u128;
    let left: u128 = if used < budget {
        budget - used
    } else {
        0
    };
    let secs: u128 = left / NANOS_PER_SEC as u128;
    let nanos: u128 = left % NANOS_PER_SEC as u128;
    assert(secs * NANOS_PER_SEC + nanos == left && secs <= interval_seconds) by (nonlinear_arith)
        requires
            secs == left / 1_000_000_000u128,
            nanos == left % 1_000_000_000u128,
            left <= interval_seconds * 1_000_000_000u128,
            NANOS_PER_SEC == 1_000_000_000u32,
    ;
    Span { secs: secs as u64, nanos: nanos as u32 }
}

/// A cycle whose work fits in the interval lasts exactly the interval; one
/// that overruns it is followed at once by the next cycle, without sleeping.
pub proof fn lemma_period(interval_seconds: u64, elapsed: Span)
    ensures
        elapsed.as_nanos() <= interval_nanos(interval_seconds) ==> period_nanos(
            interval_seconds,
            elapsed,
        ) == interval_nanos(interval_seconds),
        elapsed.as_nanos() >= interval_nanos(interval_seconds) ==> sleep_nanos(
            interval_seconds,
            elapsed,
        ) == 0,
        sleep_nanos(interval_seconds, elapsed) >= 0,
{
}

/// Total length of a run of cycles whose work took the given times.
pub open spec fn run_nanos(interval_seconds: u64, elapsed: Seq<Span>) -> int
    decreases elapsed.len(),
{
    if elapsed.len() == 0 {
        0
    } else {
        run_nanos(interval_seconds, elapsed.drop_last()) + period_nanos(
            interval_seconds,
            elapsed.last(),
        )
    }
}

/// Cycles whose work each fits in the interval take, all together, exactly
/// as many intervals as there are cycles: no drift builds up.
pub proof fn lemma_no_drift(interval_seconds: u64, elapsed: Seq<Span>)
    requires
        forall|i: int|
            0 <= i < elapsed.len() ==> #[trigger] elapsed[i].as_nanos() <= interval_nanos(
                interval_seconds,
            ),
    ensures
        run_nanos(interval_seconds, elapsed) == elapsed.len() * interval_nanos(interval_seconds),
    decreases elapsed.len(),
{
    if elapsed.len() > 0 {
        let rest = elapsed.drop_last();
        assert forall|i: int| 0 <= i < rest.len() implies #[trigger] rest[i].as_nanos()
            <= interval_nanos(interval_seconds) by {
            assert(rest[i] == elapsed[i]);
        }
        lemma_no_drift(interval_seconds, rest);
        assert(elapsed.last() == elapsed[elapsed.len() - 1]);
        lemma_period(interval_seconds, elapsed.last());
        assert(elapsed.len() * interval_nanos(interval_seconds) == rest.len() * interval_nanos(
            interval_seconds,
        ) + interval_nanos(interval_seconds)) by (nonlinear_arith)
            requires
                rest.len() + 1 == elapsed.len(),
        ;
    }
}

} // verus!
