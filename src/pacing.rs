use vstd::prelude::*;

verus! {

/// How long to wait after an iteration that took `elapsed`, so that the
/// iteration lasts a whole `period`: the remainder, or nothing when the
/// iteration overran (no catch-up).
pub open spec fn pause_for(elapsed: int, period: int) -> int {
    if elapsed < period { period - elapsed } else { 0 }
}

/// Wall time of one paced iteration: its own work plus the pause after it.
pub open spec fn paced_length(elapsed: int, period: int) -> int {
    elapsed + pause_for(elapsed, period)
}

/// Wall time of consecutive paced iterations whose work took `elapsed[i]`.
pub open spec fn paced_total(elapsed: Seq<u64>, period: int) -> int
    decreases elapsed.len(),
{
    if elapsed.len() == 0 {
        0
    } else {
        paced_total(elapsed.drop_last(), period) + paced_length(elapsed.last() as int, period)
    }
}

/// The pause, in microseconds, that closes an iteration whose work took
/// `elapsed_micros` when the loop targets one iteration per `period_micros`.
pub fn pause_after(elapsed_micros: u64, period_micros: u64) -> (r: u64)
    ensures
        r == pause_for(elapsed_micros as int, period_micros as int),
        r <= period_micros,
        elapsed_micros + r == if elapsed_micros < period_micros { period_micros } else { elapsed_micros },
{
    if elapsed_micros < period_micros {
        period_micros - elapsed_micros
    } else {
        0
    }
}

/// Every paced iteration lasts at least the period, and exactly the period
/// when its work fits in it.
pub proof fn lemma_iteration_length(elapsed: u64, period: u64)
    ensures
        paced_length(elapsed as int, period as int) >= period,
        elapsed <= period ==> paced_length(elapsed as int, period as int) == period,
        elapsed > period ==> paced_length(elapsed as int, period as int) == elapsed,
{
}

/// Over any run of iterations whose work fits in the period (in particular
/// work that costs nothing), the loop takes exactly one period per
/// iteration; in general it never runs faster than that.
pub proof fn lemma_pacing_holds_rate(elapsed: Seq<u64>, period: u64)
    ensures
        paced_total(elapsed, period as int) >= elapsed.len() * period,
        (forall|i: int| 0 <= i < elapsed.len() ==> elapsed[i] <= period) ==> paced_total(
            elapsed,
            period as int,
        ) == elapsed.len() * period,
    decreases elapsed.len(),
{
    if elapsed.len() > 0 {
        let rest = elapsed.drop_last();
        lemma_pacing_holds_rate(rest, period);
        assert(forall|i: int| 0 <= i < rest.len() ==> rest[i] == elapsed[i]);
        assert(elapsed.len() * period == rest.len() * period + period) by (nonlinear_arith)
            requires
                elapsed.len() == rest.len() + 1,
        ;
    }
}

} // verus!
