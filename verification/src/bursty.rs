//! The burst duty-cycle controller.
//!
//! While the duty-cycle strategy is active, one coordinator repeats a cycle:
//! it draws a nominal burst length, runs one burst of worker processes, and
//! then idles for as long as the target utilization asks. The idle time is
//! derived from the nominal burst length, not from the time the burst took, so
//! the target is met exactly when bursts take their nominal time and only
//! approached when they take longer.
//!
//! The controller decides; its caller draws the random length, runs the
//! processes and sleeps.

use crate::mode::{spec_valid_utilization, Utilization, FULL_LOAD};
use crate::workload::POLL_INTERVAL_MS;
use vstd::prelude::*;

verus! {

/// The shortest nominal burst, in milliseconds.
pub const MIN_BURST_MILLIS: u64 = 500;

/// The longest nominal burst, in milliseconds.
pub const MAX_BURST_MILLIS: u64 = 5000;

/// The longest stretch of idle time that is slept without looking at the mode
/// state again.
pub const IDLE_CHECK_MILLIS: u64 = POLL_INTERVAL_MS;

/// A drawn burst length, brought into the range of nominal bursts.
pub open spec fn spec_nominal_burst(sample_millis: nat) -> nat {
    if sample_millis < MIN_BURST_MILLIS {
        MIN_BURST_MILLIS as nat
    } else if sample_millis > MAX_BURST_MILLIS {
        MAX_BURST_MILLIS as nat
    } else {
        sample_millis
    }
}

/// The idle time that follows a burst of nominal length `burst_millis` at a
/// target of `millionths`: `burst * (1 - u) / u`, rounded down.
pub open spec fn spec_idle_millis(burst_millis: nat, millionths: nat) -> nat
    recommends
        millionths > 0,
{
    ((burst_millis * (FULL_LOAD - millionths)) as int / millionths as int) as nat
}

/// Clamps a drawn burst length to the range of nominal bursts.
pub fn nominal_burst_millis(sample_millis: u64) -> (burst: u64)
    ensures
        burst == spec_nominal_burst(sample_millis as nat),
        MIN_BURST_MILLIS <= burst <= MAX_BURST_MILLIS,
{
    if sample_millis < MIN_BURST_MILLIS {
        MIN_BURST_MILLIS
    } else if sample_millis > MAX_BURST_MILLIS {
        MAX_BURST_MILLIS
    } else {
        sample_millis
    }
}

/// The idle time after a burst of nominal length `burst_millis`, or the
/// largest 64-bit value where the idle time exceeds it; a nominal burst within
/// its range never does.
pub fn idle_millis(burst_millis: u64, target: Utilization) -> (idle: u64)
    ensures
        spec_idle_millis(burst_millis as nat, target@) <= u64::MAX ==> idle == spec_idle_millis(
            burst_millis as nat,
            target@,
        ),
        spec_idle_millis(burst_millis as nat, target@) > u64::MAX ==> idle == u64::MAX,
        burst_millis <= MAX_BURST_MILLIS ==> idle == spec_idle_millis(
            burst_millis as nat,
            target@,
        ),
        target@ == FULL_LOAD ==> idle == 0,
{
    let m: u32 = target.millionths();
    let rest: u128 = (FULL_LOAD - m) as u128;
    assert(burst_millis as u128 * rest <= 0xffff_ffff_ffff_ffff * 1_000_000) by (nonlinear_arith)
        requires
            burst_millis <= 0xffff_ffff_ffff_ffff,
            rest <= 1_000_000,
    ;
    let scaled: u128 = burst_millis as u128 * rest;
    let idle: u128 = scaled / m as u128;
    proof {
        if burst_millis <= MAX_BURST_MILLIS {
            assert(scaled <= 5000 * 1_000_000) by (nonlinear_arith)
                requires
                    scaled == burst_millis * rest,
                    burst_millis <= 5000,
                    rest <= 1_000_000,
            ;
            assert(idle <= scaled) by (nonlinear_arith)
                requires
                    idle == scaled / (m as u128),
                    m >= 1,
            ;
        }
        if m == FULL_LOAD {
            assert(scaled == 0) by (nonlinear_arith)
                requires
                    scaled == burst_millis * rest,
                    rest == 0,
            ;
        }
    }
    if idle > u64::MAX as u128 {
        u64::MAX
    } else {
        idle as u64
    }
}

/// Where the coordinator stands in its cycle.
#[derive(Clone, Copy, Debug, PartialEq, Eq, Structural)]
pub enum BurstPhase {
    /// Between cycles: the next active poll starts a burst.
    Ready,
    /// A burst is in flight.
    Bursting,
    /// Idling after a burst, with this much idle time still to sleep.
    Idling { remaining_millis: u64 },
}

/// What the coordinator's caller does next.
#[derive(Clone, Copy, Debug, PartialEq, Eq, Structural)]
pub enum BurstAction {
    /// The strategy is not active: sleep, then poll again.
    Park { millis: u64 },
    /// Start a burst: run `workers` worker processes of `ops_per_worker` units
    /// each, wait for all of them, and report the burst as finished.
    StartBurst { workers: usize, ops_per_worker: u64 },
    /// Sleep this stretch of the idle time, then poll again.
    Idle { millis: u64 },
    /// A burst is in flight and has not been reported as finished.
    AwaitBurst,
}

/// The phase after a poll.
pub open spec fn spec_phase_after_poll(phase: BurstPhase, active: bool) -> BurstPhase {
    match phase {
        BurstPhase::Bursting => BurstPhase::Bursting,
        _ if !active => BurstPhase::Ready,
        BurstPhase::Idling { remaining_millis } if remaining_millis > IDLE_CHECK_MILLIS => {
            BurstPhase::Idling { remaining_millis: (remaining_millis - IDLE_CHECK_MILLIS) as u64 }
        },
        BurstPhase::Idling { remaining_millis } if remaining_millis > 0 => BurstPhase::Ready,
        _ => BurstPhase::Bursting,
    }
}

/// The action that a poll asks for.
pub open spec fn spec_action_of_poll(
    phase: BurstPhase,
    active: bool,
    workers: usize,
    ops_per_worker: u64,
) -> BurstAction {
    match phase {
        BurstPhase::Bursting => BurstAction::AwaitBurst,
        _ if !active => BurstAction::Park { millis: POLL_INTERVAL_MS },
        BurstPhase::Idling { remaining_millis } if remaining_millis > IDLE_CHECK_MILLIS => {
            BurstAction::Idle { millis: IDLE_CHECK_MILLIS }
        },
        BurstPhase::Idling { remaining_millis } if remaining_millis > 0 => BurstAction::Idle {
            millis: remaining_millis,
        },
        _ => BurstAction::StartBurst { workers, ops_per_worker },
    }
}

/// The phase after a burst was reported as finished: idling for the idle time
/// of the nominal burst, or ready at once where that is nothing.
pub open spec fn spec_phase_after_burst(
    phase: BurstPhase,
    sample_millis: nat,
    millionths: nat,
) -> BurstPhase {
    let idle = spec_idle_millis(spec_nominal_burst(sample_millis), millionths);
    if phase != BurstPhase::Bursting {
        phase
    } else if idle == 0 {
        BurstPhase::Ready
    } else {
        BurstPhase::Idling { remaining_millis: idle as u64 }
    }
}

/// The coordinator of the duty-cycle strategy.
#[derive(Clone, Copy, Debug)]
pub struct BurstController {
    workers: usize,
    ops_per_worker: u64,
    phase: BurstPhase,
}

impl BurstController {
    /// The number of worker processes in each burst.
    pub closed spec fn spec_workers(&self) -> usize {
        self.workers
    }

    /// The units that each worker process of a burst executes.
    pub closed spec fn spec_ops_per_worker(&self) -> u64 {
        self.ops_per_worker
    }

    /// Where the coordinator stands in its cycle.
    pub closed spec fn spec_phase(&self) -> BurstPhase {
        self.phase
    }

    /// A coordinator between cycles.
    pub fn new(workers: usize, ops_per_worker: u64) -> (c: BurstController)
        ensures
            c.spec_workers() == workers,
            c.spec_ops_per_worker() == ops_per_worker,
            c.spec_phase() == BurstPhase::Ready,
    {
        BurstController { workers, ops_per_worker, phase: BurstPhase::Ready }
    }

    /// Where the coordinator stands in its cycle.
    pub fn phase(&self) -> (phase: BurstPhase)
        ensures
            phase == self.spec_phase(),
    {
        self.phase
    }

    /// Whether a burst is in flight.
    pub fn in_burst(&self) -> (bursting: bool)
        ensures
            bursting == (self.spec_phase() == BurstPhase::Bursting),
    {
        match self.phase {
            BurstPhase::Bursting => true,
            _ => false,
        }
    }

    /// One decision of the cycle, given whether the strategy is active now.
    ///
    /// An inactive poll abandons any idle time that is left and parks. An
    /// active poll starts a burst when no idle time is left, and otherwise asks
    /// for the next stretch of idle sleep, which is never longer than
    /// `IDLE_CHECK_MILLIS`. While a burst is in flight a poll changes nothing.
    pub fn poll(&mut self, active: bool) -> (action: BurstAction)
        ensures
            final(self).spec_phase() == spec_phase_after_poll(old(self).spec_phase(), active),
            action == spec_action_of_poll(
                old(self).spec_phase(),
                active,
                old(self).spec_workers(),
                old(self).spec_ops_per_worker(),
            ),
            final(self).spec_workers() == old(self).spec_workers(),
            final(self).spec_ops_per_worker() == old(self).spec_ops_per_worker(),
    {
        match self.phase {
            BurstPhase::Bursting => BurstAction::AwaitBurst,
            BurstPhase::Ready => {
                if active {
                    self.phase = BurstPhase::Bursting;
                    BurstAction::StartBurst {
                        workers: self.workers,
                        ops_per_worker: self.ops_per_worker,
                    }
                } else {
                    BurstAction::Park { millis: POLL_INTERVAL_MS }
                }
            },
            BurstPhase::Idling { remaining_millis } => {
                if !active {
                    self.phase = BurstPhase::Ready;
                    BurstAction::Park { millis: POLL_INTERVAL_MS }
                } else if remaining_millis > IDLE_CHECK_MILLIS {
                    self.phase = BurstPhase::Idling {
                        remaining_millis: remaining_millis - IDLE_CHECK_MILLIS,
                    };
                    BurstAction::Idle { millis: IDLE_CHECK_MILLIS }
                } else if remaining_millis > 0 {
                    self.phase = BurstPhase::Ready;
                    BurstAction::Idle { millis: remaining_millis }
                } else {
                    self.phase = BurstPhase::Bursting;
                    BurstAction::StartBurst {
                        workers: self.workers,
                        ops_per_worker: self.ops_per_worker,
                    }
                }
            },
        }
    }

    /// Reports the burst in flight as finished. `sample_millis` is the burst
    /// length that was drawn for this cycle and `target` the utilization to
    /// hold; the idle time that follows is that of the nominal burst. Outside
    /// a burst the report changes nothing.
    pub fn burst_finished(&mut self, sample_millis: u64, target: Utilization)
        ensures
            final(self).spec_phase() == spec_phase_after_burst(
                old(self).spec_phase(),
                sample_millis as nat,
                target@,
            ),
            final(self).spec_workers() == old(self).spec_workers(),
            final(self).spec_ops_per_worker() == old(self).spec_ops_per_worker(),
    {
        match self.phase {
            BurstPhase::Bursting => {
                let idle: u64 = idle_millis(nominal_burst_millis(sample_millis), target);
                if idle == 0 {
                    self.phase = BurstPhase::Ready;
                } else {
                    self.phase = BurstPhase::Idling { remaining_millis: idle };
                }
            },
            _ => {},
        }
    }
}

/// The burst time of a run of cycles whose bursts took their nominal lengths.
pub open spec fn total_burst_millis(bursts: Seq<u64>) -> nat
    decreases bursts.len(),
{
    if bursts.len() == 0 {
        0
    } else {
        total_burst_millis(bursts.drop_last()) + bursts.last() as nat
    }
}

/// The idle time of the same run of cycles at a target of `millionths`.
pub open spec fn total_idle_millis(bursts: Seq<u64>, millionths: nat) -> nat
    decreases bursts.len(),
{
    if bursts.len() == 0 {
        0
    } else {
        total_idle_millis(bursts.drop_last(), millionths) + spec_idle_millis(
            bursts.last() as nat,
            millionths,
        )
    }
}

/// One cycle holds the target from below, and misses it by less than one
/// millisecond of idle time: with `i` the idle time after a burst `b` at a
/// target `u`, `u * (b + i) <= b < u * (b + i + 1)`.
pub proof fn lemma_cycle_holds_target(burst_millis: nat, millionths: nat)
    requires
        spec_valid_utilization(millionths as int),
    ensures
        millionths * (burst_millis + spec_idle_millis(burst_millis, millionths)) <= FULL_LOAD
            * burst_millis,
        FULL_LOAD * burst_millis < millionths * (burst_millis + spec_idle_millis(
            burst_millis,
            millionths,
        ) + 1),
{
    let scaled = (burst_millis * (FULL_LOAD - millionths)) as int;
    let idle = scaled / millionths as int;
    vstd::arithmetic::div_mod::lemma_fundamental_div_mod(scaled, millionths as int);
    assert(0 <= scaled) by (nonlinear_arith)
        requires
            scaled == burst_millis * (FULL_LOAD - millionths),
            millionths <= FULL_LOAD,
    ;
    vstd::arithmetic::div_mod::lemma_div_pos_is_pos(scaled, millionths as int);
    assert(spec_idle_millis(burst_millis, millionths) == idle);
    assert(millionths * (burst_millis + idle) <= FULL_LOAD * burst_millis < millionths * (
    burst_millis + idle + 1)) by (nonlinear_arith)
        requires
            scaled == burst_millis * (FULL_LOAD - millionths),
            scaled == millionths * idle + scaled % (millionths as int),
            0 <= scaled % (millionths as int) < millionths,
    ;
}

/// Over any run of cycles whose bursts take their nominal lengths, the
/// fraction of time spent in bursts tracks the target `u`: with `B` the burst
/// time and `I` the idle time of the run, `u * (B + I) <= B`, so the fraction
/// is at least `u`; and `B - u * (B + I) <= u * B / MIN_BURST_MILLIS`, so it
/// exceeds `u` by at most one part in `MIN_BURST_MILLIS` of itself. The
/// deviation is less than one millisecond of idle time per cycle.
pub proof fn lemma_duty_cycle_tracks_target(bursts: Seq<u64>, millionths: nat)
    requires
        spec_valid_utilization(millionths as int),
        forall|i: int|
            0 <= i < bursts.len() ==> MIN_BURST_MILLIS <= #[trigger] bursts[i] <= MAX_BURST_MILLIS,
    ensures
        millionths * (total_burst_millis(bursts) + total_idle_millis(bursts, millionths))
            <= FULL_LOAD * total_burst_millis(bursts),
        FULL_LOAD * total_burst_millis(bursts) <= millionths * (total_burst_millis(bursts)
            + total_idle_millis(bursts, millionths) + bursts.len()),
        MIN_BURST_MILLIS * bursts.len() <= total_burst_millis(bursts),
        MIN_BURST_MILLIS * (FULL_LOAD * total_burst_millis(bursts) - millionths * (
        total_burst_millis(bursts) + total_idle_millis(bursts, millionths))) <= millionths
            * total_burst_millis(bursts),
    decreases bursts.len(),
{
    if bursts.len() == 0 {
        assert(millionths * 0 == 0) by (nonlinear_arith);
        assert(FULL_LOAD * 0 == 0) by (nonlinear_arith);
    } else {
        let front = bursts.drop_last();
        let b = bursts.last() as nat;
        let i = spec_idle_millis(b, millionths);
        let bf = total_burst_millis(front);
        let idf = total_idle_millis(front, millionths);
        let n = front.len();
        assert forall|k: int| 0 <= k < front.len() implies MIN_BURST_MILLIS <= #[trigger] front[k]
            <= MAX_BURST_MILLIS by {
            assert(front[k] == bursts[k]);
        }
        lemma_duty_cycle_tracks_target(front, millionths);
        lemma_cycle_holds_target(b, millionths);
        assert(bursts.len() == n + 1);
        assert(total_burst_millis(bursts) == bf + b);
        assert(total_idle_millis(bursts, millionths) == idf + i);
        assert(millionths * (bf + b + (idf + i)) <= FULL_LOAD * (bf + b)) by (nonlinear_arith)
            requires
                millionths * (bf + idf) <= FULL_LOAD * bf,
                millionths * (b + i) <= FULL_LOAD * b,
        ;
        assert(FULL_LOAD * (bf + b) <= millionths * (bf + b + (idf + i) + (n + 1)))
            by (nonlinear_arith)
            requires
                FULL_LOAD * bf <= millionths * (bf + idf + n),
                FULL_LOAD * b < millionths * (b + i + 1),
        ;
        assert(MIN_BURST_MILLIS * (n + 1) <= bf + b) by (nonlinear_arith)
            requires
                MIN_BURST_MILLIS * n <= bf,
                MIN_BURST_MILLIS <= b,
        ;
        assert(MIN_BURST_MILLIS * (FULL_LOAD * (bf + b) - millionths * (bf + b + (idf + i)))
            <= millionths * (bf + b)) by (nonlinear_arith)
            requires
                FULL_LOAD * (bf + b) <= millionths * (bf + b + (idf + i) + (n + 1)),
                MIN_BURST_MILLIS * (n + 1) <= bf + b,
                millionths > 0,
        ;
    }
}

/// At full load there is no idle time: one burst follows another.
pub proof fn lemma_full_load_never_idles(burst_millis: nat)
    ensures
        spec_idle_millis(burst_millis, FULL_LOAD as nat) == 0,
        forall|sample_millis: nat|
            spec_phase_after_burst(BurstPhase::Bursting, sample_millis, FULL_LOAD as nat)
                == BurstPhase::Ready,
{
    assert(burst_millis * (FULL_LOAD - FULL_LOAD) == 0) by (nonlinear_arith);
    assert forall|sample_millis: nat|
        spec_phase_after_burst(BurstPhase::Bursting, sample_millis, FULL_LOAD as nat)
            == BurstPhase::Ready by {
        let b = spec_nominal_burst(sample_millis);
        assert(b * (FULL_LOAD - FULL_LOAD) == 0) by (nonlinear_arith);
    }
}

/// The idle time that a phase still has to sleep.
pub open spec fn spec_idle_left(phase: BurstPhase) -> nat {
    match phase {
        BurstPhase::Idling { remaining_millis } => remaining_millis as nat,
        _ => 0,
    }
}

/// Idle time is slept in full and in short stretches while the strategy stays
/// active: each active poll of an idling coordinator asks for a stretch of at
/// most `IDLE_CHECK_MILLIS` and takes exactly that stretch off the idle time
/// that is left; with none left, the next burst starts.
pub proof fn lemma_idle_slept_in_stretches(
    remaining_millis: u64,
    workers: usize,
    ops_per_worker: u64,
)
    ensures
        remaining_millis > 0 ==> ({
            let action = spec_action_of_poll(
                BurstPhase::Idling { remaining_millis },
                true,
                workers,
                ops_per_worker,
            );
            let left = spec_idle_left(
                spec_phase_after_poll(BurstPhase::Idling { remaining_millis }, true),
            );
            &&& left < remaining_millis
            &&& remaining_millis - left <= IDLE_CHECK_MILLIS
            &&& action == (BurstAction::Idle { millis: (remaining_millis - left) as u64 })
        }),
        remaining_millis == 0 ==> spec_action_of_poll(
            BurstPhase::Idling { remaining_millis },
            true,
            workers,
            ops_per_worker,
        ) == (BurstAction::StartBurst { workers, ops_per_worker }),
{
}

/// A stop or a change of mode is honoured at the next poll: an inactive poll
/// outside a burst parks, starts nothing and abandons the idle time that is
/// left. A burst in flight runs to its end.
pub proof fn lemma_inactive_poll_parks(phase: BurstPhase, workers: usize, ops_per_worker: u64)
    ensures
        phase != BurstPhase::Bursting ==> spec_action_of_poll(
            phase,
            false,
            workers,
            ops_per_worker,
        ) == (BurstAction::Park { millis: POLL_INTERVAL_MS }),
        phase != BurstPhase::Bursting ==> spec_phase_after_poll(phase, false) == BurstPhase::Ready,
        spec_phase_after_poll(BurstPhase::Bursting, false) == BurstPhase::Bursting,
        spec_action_of_poll(BurstPhase::Bursting, false, workers, ops_per_worker)
            == BurstAction::AwaitBurst,
{
}

} // verus!
