//! The metrics aggregator: a live counter of completed units, the rate that
//! the last sample published, and the same pair for time spent in bursts.
//!
//! A published value is always the throughput of a completed sampling period:
//! `sample_tick` moves the live counter out and zeroes it in one step, so no
//! unit is counted twice and none is lost between reading and resetting.

use vstd::prelude::*;

verus! {

/// Milliseconds in one second: the factor between units per millisecond and
/// the published units per second.
pub const MILLIS_PER_SECOND: u64 = 1000;

/// The aggregator's state as mathematical integers.
pub struct Throughput {
    /// Units completed since the last sample.
    pub live: nat,
    /// Units per second, as of the last sample.
    pub published: nat,
    /// Units completed inside bursts since the last sample.
    pub burst_units: nat,
    /// Milliseconds spent inside bursts since the last sample.
    pub burst_millis: nat,
    /// Units per second of burst time, as of the last sample.
    pub published_burst: nat,
}

/// The sum of two counters as a 64-bit counter holds it: reduced modulo 2^64.
pub open spec fn spec_counter_sum(a: nat, b: nat) -> nat {
    if a + b > u64::MAX {
        (a + b - u64::MAX - 1) as nat
    } else {
        a + b
    }
}

/// Units per second over `millis` milliseconds of burst time; 0 where no time
/// was spent, and the largest 64-bit value where the rate exceeds it.
pub open spec fn spec_burst_rate(units: nat, millis: nat) -> nat {
    if millis == 0 {
        0
    } else if (units * MILLIS_PER_SECOND) as int / millis as int > u64::MAX {
        u64::MAX as nat
    } else {
        ((units * MILLIS_PER_SECOND) as int / millis as int) as nat
    }
}

impl Throughput {
    /// Every counter and every published rate at 0.
    pub open spec fn zero() -> Throughput {
        Throughput { live: 0, published: 0, burst_units: 0, burst_millis: 0, published_burst: 0 }
    }

    /// After `k` units were recorded outside a burst.
    pub open spec fn record(self, k: nat) -> Throughput {
        Throughput { live: spec_counter_sum(self.live, k), ..self }
    }

    /// After a burst of `units` units that took `millis` milliseconds was recorded.
    pub open spec fn record_burst(self, units: nat, millis: nat) -> Throughput {
        Throughput {
            live: spec_counter_sum(self.live, units),
            burst_units: spec_counter_sum(self.burst_units, units),
            burst_millis: spec_counter_sum(self.burst_millis, millis),
            ..self
        }
    }

    /// After one sample: what was accumulated is published, and accumulation
    /// starts again from 0.
    pub open spec fn sample(self) -> Throughput {
        Throughput {
            live: 0,
            published: self.live,
            burst_units: 0,
            burst_millis: 0,
            published_burst: spec_burst_rate(self.burst_units, self.burst_millis),
        }
    }
}

/// Units per second of burst time, from the units and milliseconds accumulated.
pub fn burst_rate(units: u64, millis: u64) -> (rate: u64)
    ensures
        rate == spec_burst_rate(units as nat, millis as nat),
{
    if millis == 0 {
        return 0;
    }
    let scaled: u128 = units as u128 * 1000;
    let rate: u128 = scaled / millis as u128;
    if rate > u64::MAX as u128 {
        u64::MAX
    } else {
        rate as u64
    }
}

/// The aggregator. Workers add to it, the sampler publishes from it once per
/// second, and the control surface reads what was published.
#[derive(Clone, Copy, Debug)]
pub struct Aggregator {
    live_counter: u64,
    published_rate: u64,
    burst_only_counter: u64,
    burst_only_elapsed_millis: u64,
    published_burst_rate: u64,
}

impl View for Aggregator {
    type V = Throughput;

    closed spec fn view(&self) -> Throughput {
        Throughput {
            live: self.live_counter as nat,
            published: self.published_rate as nat,
            burst_units: self.burst_only_counter as nat,
            burst_millis: self.burst_only_elapsed_millis as nat,
            published_burst: self.published_burst_rate as nat,
        }
    }
}

impl Aggregator {
    /// A fresh aggregator: nothing counted, nothing published.
    pub fn new() -> (a: Aggregator)
        ensures
            a@ == Throughput::zero(),
    {
        Aggregator {
            live_counter: 0,
            published_rate: 0,
            burst_only_counter: 0,
            burst_only_elapsed_millis: 0,
            published_burst_rate: 0,
        }
    }

    /// Adds `k` completed units to the live counter.
    pub fn record_units(&mut self, k: u64)
        ensures
            final(self)@ == old(self)@.record(k as nat),
    {
        self.live_counter = self.live_counter.wrapping_add(k);
    }

    /// Folds one finished burst in: its units go to the live counter and to
    /// the burst-only counter, its duration to the burst-only time.
    pub fn record_burst(&mut self, units: u64, elapsed_millis: u64)
        ensures
            final(self)@ == old(self)@.record_burst(units as nat, elapsed_millis as nat),
    {
        self.live_counter = self.live_counter.wrapping_add(units);
        self.burst_only_counter = self.burst_only_counter.wrapping_add(units);
        self.burst_only_elapsed_millis = self.burst_only_elapsed_millis.wrapping_add(
            elapsed_millis,
        );
    }

    /// The once-per-second sample: publishes what the live counter holds and
    /// the rate over the accumulated burst time, and zeroes what was
    /// accumulated.
    pub fn sample_tick(&mut self)
        ensures
            final(self)@ == old(self)@.sample(),
    {
        self.published_rate = self.live_counter;
        self.live_counter = 0;
        self.published_burst_rate = burst_rate(
            self.burst_only_counter,
            self.burst_only_elapsed_millis,
        );
        self.burst_only_counter = 0;
        self.burst_only_elapsed_millis = 0;
    }

    /// The rate that the last sample published.
    pub fn query_rate(&self) -> (rate: u64)
        ensures
            rate == self@.published,
    {
        self.published_rate
    }

    /// The burst-only rate that the last sample published.
    pub fn query_burst_rate(&self) -> (rate: u64)
        ensures
            rate == self@.published_burst,
    {
        self.published_burst_rate
    }

    /// The units recorded since the last sample.
    pub fn pending_units(&self) -> (units: u64)
        ensures
            units == self@.live,
    {
        self.live_counter
    }

    /// Zeroes every counter and every published rate.
    pub fn reset(&mut self)
        ensures
            final(self)@ == Throughput::zero(),
    {
        self.live_counter = 0;
        self.published_rate = 0;
        self.burst_only_counter = 0;
        self.burst_only_elapsed_millis = 0;
        self.published_burst_rate = 0;
    }
}

/// Sampling never counts a unit twice: `k` units recorded on an empty live
/// counter are published by the next sample as exactly `k`, and by the sample
/// after that, with nothing recorded in between, as 0.
pub proof fn lemma_sample_counts_once(before: Throughput, k: nat)
    requires
        before.live == 0,
        k <= u64::MAX,
    ensures
        before.record(k).sample().published == k,
        before.record(k).sample().live == 0,
        before.record(k).sample().sample().published == 0,
{
}

/// With units already on the live counter, the next sample publishes their
/// sum with the `k` new ones as a 64-bit counter holds it, and the sample
/// after that publishes 0.
pub proof fn lemma_sample_publishes_sum(before: Throughput, k: nat)
    ensures
        before.record(k).sample().published == spec_counter_sum(before.live, k),
        before.record(k).sample().sample().published == 0,
{
}

/// A burst is counted in the overall rate and in the burst-only rate alike:
/// recorded on an empty aggregator, it is published as its units by the one
/// and as its units per second of burst time by the other.
pub proof fn lemma_burst_counts_in_both(units: nat, millis: nat)
    requires
        units <= u64::MAX,
        millis <= u64::MAX,
    ensures
        Throughput::zero().record_burst(units, millis).sample().published == units,
        Throughput::zero().record_burst(units, millis).sample().published_burst
            == spec_burst_rate(units, millis),
{
}

/// A burst that lasted exactly one second has the same overall and burst-only
/// rate.
pub proof fn lemma_full_second_burst_rates_agree(units: nat)
    requires
        units <= u64::MAX,
    ensures
        spec_burst_rate(units, MILLIS_PER_SECOND as nat) == units,
{
    assert((units * 1000) as int / 1000 == units) by (nonlinear_arith);
}

} // verus!
