//! The fixed-rate time accumulator: elapsed time is consumed in
//! threshold-sized chunks, never partially, and the remainder carries over,
//! so no time is lost or double-counted across ticks.
//!
//! Catch-up is deliberately uncapped: when one tick brings a large elapsed
//! time, the fixed-rate stage runs once per full threshold contained in it,
//! so the fixed-rate logic advances at a constant simulated rate however the
//! wall time was distributed across ticks.

use vstd::prelude::*;

verus! {

/// Accumulates elapsed milliseconds against a fixed threshold.
pub struct FixedTimer {
    /// Time carried over, not yet consumed. Below `threshold` after a drain.
    pub acc: u64,
    /// The fixed chunk size; always positive.
    pub threshold: u64,
}

/// How many fixed-rate runs a whole tick of `dt` yields from carry `acc`.
pub open spec fn spec_runs(acc: u64, threshold: u64, dt: u64) -> int {
    (acc + dt) / (threshold as int)
}

/// The carry left after a whole tick of `dt` from carry `acc`.
pub open spec fn spec_carry(acc: u64, threshold: u64, dt: u64) -> int {
    (acc + dt) % (threshold as int)
}

impl FixedTimer {
    /// The threshold is positive and the carry strictly below it.
    pub open spec fn wf(self) -> bool {
        self.threshold > 0 && self.acc < self.threshold
    }

    pub fn new(threshold: u64) -> (t: Self)
        requires
            threshold > 0,
        ensures
            t.wf(),
            t.acc == 0,
            t.threshold == threshold,
    {
        FixedTimer { acc: 0, threshold }
    }

    /// Feeds one tick's elapsed time in and drains every full threshold
    /// chunk, returning how many times the fixed-rate stage must run this
    /// tick. The remainder stays in the accumulator.
    pub fn advance(&mut self, dt: u64) -> (runs: u64)
        requires
            old(self).wf(),
            old(self).acc + dt <= u64::MAX,
        ensures
            final(self).wf(),
            final(self).threshold == old(self).threshold,
            runs == spec_runs(old(self).acc, old(self).threshold, dt),
            final(self).acc == spec_carry(old(self).acc, old(self).threshold, dt),
    {
        let total: u64 = self.acc + dt;
        let runs: u64 = total / self.threshold;
        self.acc = total % self.threshold;
        runs
    }
}

/// The total elapsed time of a sequence of per-tick durations.
pub open spec fn total_elapsed(dts: Seq<u64>) -> int
    decreases dts.len(),
{
    if dts.len() == 0 {
        0
    } else {
        total_elapsed(dts.drop_last()) + dts.last()
    }
}

/// Runs the fixed-rate stage owes after processing `dts` tick by tick,
/// starting from carry `acc`.
pub open spec fn runs_over(acc: u64, threshold: u64, dts: Seq<u64>) -> int
    decreases dts.len(),
{
    if dts.len() == 0 {
        0
    } else {
        runs_over(acc, threshold, dts.drop_last())
            + spec_runs(carry_over(acc, threshold, dts.drop_last()), threshold, dts.last())
    }
}

/// The carry left after processing `dts` tick by tick from carry `acc`.
pub open spec fn carry_over(acc: u64, threshold: u64, dts: Seq<u64>) -> u64
    decreases dts.len(),
{
    if dts.len() == 0 {
        acc
    } else {
        spec_carry(carry_over(acc, threshold, dts.drop_last()), threshold, dts.last()) as u64
    }
}

/// Law: across any sequence of ticks, however the elapsed time is
/// distributed over them, the fixed-rate stage runs exactly
/// `floor(total_elapsed / threshold)` times, and the carry is exactly the
/// remainder — no time lost, none double-counted.
pub proof fn lemma_fixed_rate_exact(acc: u64, threshold: u64, dts: Seq<u64>)
    requires
        threshold > 0,
        acc < threshold,
    ensures
        carry_over(acc, threshold, dts) < threshold,
        runs_over(acc, threshold, dts) == (acc + total_elapsed(dts)) / (threshold as int),
        carry_over(acc, threshold, dts) == (acc + total_elapsed(dts)) % (threshold as int),
    decreases dts.len(),
{
    if dts.len() == 0 {
        vstd::arithmetic::div_mod::lemma_fundamental_div_mod_converse(
            acc as int,
            threshold as int,
            0,
            acc as int,
        );
    } else {
        let prefix = dts.drop_last();
        let d = dts.last();
        lemma_fixed_rate_exact(acc, threshold, prefix);
        let c = carry_over(acc, threshold, prefix);
        let r = runs_over(acc, threshold, prefix);
        let t = threshold as int;
        // One more tick consumes (c + d) / t chunks and leaves (c + d) % t.
        vstd::arithmetic::div_mod::lemma_fundamental_div_mod(c + d, t);
        vstd::arithmetic::div_mod::lemma_fundamental_div_mod(acc + total_elapsed(prefix), t);
        assert(acc + total_elapsed(dts) == t * (r + spec_runs(c, threshold, d)) + spec_carry(
            c,
            threshold,
            d,
        )) by (nonlinear_arith)
            requires
                acc + total_elapsed(prefix) == t * r + c,
                c + d == t * spec_runs(c, threshold, d) + spec_carry(c, threshold, d),
                acc + total_elapsed(dts) == acc + total_elapsed(prefix) + d,
        ;
        vstd::arithmetic::div_mod::lemma_fundamental_div_mod_converse(
            acc + total_elapsed(dts),
            t,
            r + spec_runs(c, threshold, d),
            spec_carry(c, threshold, d),
        );
    }
}

} // verus!
