//! The orchestrator: the single owner of the mode state and of the
//! aggregator, and the control operations that start, switch and stop the
//! load.
//!
//! The control states are *stopped* and *running* in one of the three modes.
//! A request for another mode while running is a stop followed by a start:
//! the request stops the load and zeroes every counter, its caller waits the
//! grace interval so that parked workers notice, and `complete_switch` starts
//! the new mode. A worker that was in the middle of a unit when the load was
//! stopped may still record it during the grace interval; the switch does not
//! wait for it and does not zero the counters a second time.

use crate::metrics::{Aggregator, Throughput};
use crate::mode::{
    spec_valid_utilization, ControlError, ExecutionMode, Utilization, DEFAULT_LOAD,
};
use vstd::prelude::*;

verus! {

/// The wait between stopping one mode and starting another, in milliseconds:
/// twice the interval at which parked workers look at the mode state.
pub const GRACE_MILLIS: u64 = 200;

/// How a request for a mode ended.
#[derive(Clone, Copy, Debug, PartialEq, Eq, Structural)]
pub enum StartOutcome {
    /// The load was stopped and now runs in the requested mode.
    Started,
    /// The load already ran in the requested mode; nothing changed.
    AlreadyRunning,
    /// The load ran in another mode and was restarted in the requested one.
    Restarted,
}

/// What a request for a mode asks of its caller.
#[derive(Clone, Copy, Debug, PartialEq, Eq, Structural)]
pub enum ModeStep {
    /// The request is complete.
    Done { outcome: StartOutcome },
    /// The load was stopped for a switch: wait this long, then complete the
    /// switch.
    Grace { millis: u64 },
}

/// The orchestrator's state as mathematical values.
pub struct ControlState {
    /// The strategy that is authorized to run.
    pub mode: ExecutionMode,
    /// The global switch; off, it keeps every strategy idle.
    pub running: bool,
    /// The target utilization of the duty-cycle strategy, in millionths.
    pub target: nat,
    /// The mode that a switch in its grace interval will start.
    pub pending: Option<ExecutionMode>,
    /// The aggregator.
    pub metrics: Throughput,
}

/// The utilization that a request names, or the default where it names none.
pub open spec fn spec_requested_utilization(utilization: Option<i64>) -> int {
    match utilization {
        Some(millionths) => millionths as int,
        None => DEFAULT_LOAD as int,
    }
}

/// A request is acceptable unless it asks for the duty-cycle strategy at a
/// utilization outside `(0, 1]`.
pub open spec fn spec_acceptable(requested: ExecutionMode, utilization: Option<i64>) -> bool {
    requested == ExecutionMode::Bursty ==> spec_valid_utilization(
        spec_requested_utilization(utilization),
    )
}

impl ControlState {
    /// The state at start-up: stopped, nothing counted, half load as target.
    pub open spec fn initial() -> ControlState {
        ControlState {
            mode: ExecutionMode::FreshProcess,
            running: false,
            target: DEFAULT_LOAD as nat,
            pending: None,
            metrics: Throughput::zero(),
        }
    }

    /// A switch is pending only while the load is stopped, and the target is a
    /// utilization.
    pub open spec fn wf(self) -> bool {
        &&& self.pending is Some ==> !self.running
        &&& spec_valid_utilization(self.target as int)
    }

    /// `strategy` is the one that produces load now.
    pub open spec fn is_active(self, strategy: ExecutionMode) -> bool {
        self.running && self.mode == strategy
    }

    /// The target after an acceptable request: the requested utilization for
    /// the duty-cycle strategy, the old target otherwise.
    pub open spec fn target_after(self, requested: ExecutionMode, utilization: Option<i64>) -> nat {
        if requested == ExecutionMode::Bursty {
            spec_requested_utilization(utilization) as nat
        } else {
            self.target
        }
    }

    /// The state after a request for `requested`.
    pub open spec fn request(
        self,
        requested: ExecutionMode,
        utilization: Option<i64>,
    ) -> ControlState {
        if !spec_acceptable(requested, utilization) {
            self
        } else if !self.running {
            ControlState {
                mode: requested,
                running: true,
                target: self.target_after(requested, utilization),
                pending: None,
                metrics: self.metrics,
            }
        } else if self.mode == requested {
            self
        } else {
            ControlState {
                mode: self.mode,
                running: false,
                target: self.target_after(requested, utilization),
                pending: Some(requested),
                metrics: Throughput::zero(),
            }
        }
    }

    /// What a request for `requested` answers.
    pub open spec fn answer(
        self,
        requested: ExecutionMode,
        utilization: Option<i64>,
    ) -> Result<ModeStep, ControlError> {
        if !spec_acceptable(requested, utilization) {
            Err(
                ControlError::InvalidUtilization {
                    millionths: spec_requested_utilization(utilization) as i64,
                },
            )
        } else if !self.running {
            Ok(ModeStep::Done { outcome: StartOutcome::Started })
        } else if self.mode == requested {
            Ok(ModeStep::Done { outcome: StartOutcome::AlreadyRunning })
        } else {
            Ok(ModeStep::Grace { millis: GRACE_MILLIS })
        }
    }

    /// The state after the grace interval of a switch: the pending mode runs.
    /// Without a pending switch nothing changes.
    pub open spec fn complete_switch(self) -> ControlState {
        match self.pending {
            Some(mode) => ControlState { mode, running: true, pending: None, ..self },
            None => self,
        }
    }

    /// The state after a stop: not running, no switch pending, every counter
    /// and published rate at 0.
    pub open spec fn stop(self) -> ControlState {
        ControlState { running: false, pending: None, metrics: Throughput::zero(), ..self }
    }

    /// The state after one sample of the aggregator.
    pub open spec fn sample(self) -> ControlState {
        ControlState { metrics: self.metrics.sample(), ..self }
    }

    /// The burst-only rate as the control surface shows it: the published one
    /// in the duty-cycle mode, 0 in the others.
    pub open spec fn shown_burst_rate(self) -> nat {
        if self.mode == ExecutionMode::Bursty {
            self.metrics.published_burst
        } else {
            0
        }
    }
}

/// The orchestrator.
#[derive(Clone, Copy, Debug)]
pub struct Orchestrator {
    mode: ExecutionMode,
    running: bool,
    target: Utilization,
    pending: Option<ExecutionMode>,
    metrics: Aggregator,
}

impl View for Orchestrator {
    type V = ControlState;

    closed spec fn view(&self) -> ControlState {
        ControlState {
            mode: self.mode,
            running: self.running,
            target: self.target@,
            pending: self.pending,
            metrics: self.metrics@,
        }
    }
}

impl Orchestrator {
    #[verifier::type_invariant]
    closed spec fn no_switch_while_running(&self) -> bool {
        self.pending is Some ==> !self.running
    }

    /// An orchestrator at start-up: stopped, in the fresh-process mode, with
    /// half load as target and nothing counted.
    pub fn new() -> (o: Orchestrator)
        ensures
            o@ == ControlState::initial(),
            o@.wf(),
    {
        Orchestrator {
            mode: ExecutionMode::FreshProcess,
            running: false,
            target: Utilization::half(),
            pending: None,
            metrics: Aggregator::new(),
        }
    }

    /// The strategy that is authorized to run.
    pub fn mode(&self) -> (mode: ExecutionMode)
        ensures
            mode == self@.mode,
    {
        self.mode
    }

    /// Whether the load is switched on.
    pub fn is_running(&self) -> (running: bool)
        ensures
            running == self@.running,
    {
        self.running
    }

    /// The target utilization of the duty-cycle strategy.
    pub fn target_utilization(&self) -> (target: Utilization)
        ensures
            target@ == self@.target,
            spec_valid_utilization(target@ as int),
    {
        let millionths: u32 = self.target.millionths();
        assert(spec_valid_utilization(millionths as int));
        self.target
    }

    /// The mode that a switch in its grace interval will start.
    pub fn pending_switch(&self) -> (pending: Option<ExecutionMode>)
        ensures
            pending == self@.pending,
            pending is Some ==> !self@.running,
    {
        proof {
            use_type_invariant(self);
        }
        self.pending
    }

    /// The activation check of a worker of `strategy`: the load is switched on
    /// and the mode is its own.
    pub fn is_active(&self, strategy: ExecutionMode) -> (active: bool)
        ensures
            active == self@.is_active(strategy),
    {
        self.running && self.mode == strategy
    }

    /// Requests that the load run in `requested`, for the duty-cycle strategy
    /// at `utilization` millionths of full load (half load if `None`).
    ///
    /// A utilization outside `1..=1_000_000` is refused for the duty-cycle
    /// strategy and nothing changes; for the other strategies the utilization
    /// is not looked at. A stopped load starts in the requested mode. A load
    /// that runs in the requested mode is left as it is, target included. A
    /// load that runs in another mode is stopped, every counter and published
    /// rate is zeroed, and the answer asks for the grace interval, after which
    /// `complete_switch` starts the requested mode. A request that arrives
    /// during a grace interval finds the load stopped: its mode starts at
    /// once and the pending switch is dropped.
    pub fn request_mode(&mut self, requested: ExecutionMode, utilization: Option<i64>) -> (r:
        Result<ModeStep, ControlError>)
        ensures
            final(self)@ == old(self)@.request(requested, utilization),
            r == old(self)@.answer(requested, utilization),
            r is Err <==> !spec_acceptable(requested, utilization),
            r is Err ==> final(self)@ == old(self)@,
            final(self)@.wf(),
    {
        proof {
            use_type_invariant(&*self);
        }
        let mut target: Utilization = self.target;
        // Reading a target brings its range into the proof.
        let current: u32 = target.millionths();
        assert(spec_valid_utilization(current as int));
        if requested == ExecutionMode::Bursty {
            let millionths: i64 = match utilization {
                Some(m) => m,
                None => 500_000,
            };
            match Utilization::from_millionths(millionths) {
                Ok(u) => {
                    target = u;
                },
                Err(e) => {
                    return Err(e);
                },
            }
        }
        let chosen: u32 = target.millionths();
        assert(spec_valid_utilization(chosen as int));
        if !self.running {
            self.mode = requested;
            self.target = target;
            self.pending = None;
            self.running = true;
            Ok(ModeStep::Done { outcome: StartOutcome::Started })
        } else if self.mode == requested {
            Ok(ModeStep::Done { outcome: StartOutcome::AlreadyRunning })
        } else {
            self.running = false;
            self.metrics = Aggregator::new();
            self.target = target;
            self.pending = Some(requested);
            Ok(ModeStep::Grace { millis: GRACE_MILLIS })
        }
    }

    /// Ends the grace interval of a switch: the pending mode starts. Answers
    /// `Restarted` if a switch was pending, and `None`, changing nothing, if
    /// none was.
    pub fn complete_switch(&mut self) -> (outcome: Option<StartOutcome>)
        ensures
            final(self)@ == old(self)@.complete_switch(),
            outcome == if old(self)@.pending is Some {
                Some(StartOutcome::Restarted)
            } else {
                None
            },
            final(self)@.wf(),
    {
        proof {
            use_type_invariant(&*self);
        }
        let target: u32 = self.target.millionths();
        assert(spec_valid_utilization(target as int));
        match self.pending {
            Some(mode) => {
                self.pending = None;
                self.mode = mode;
                self.running = true;
                Some(StartOutcome::Restarted)
            },
            None => None,
        }
    }

    /// Stops the load: always succeeds, whatever the state, and leaves the
    /// load switched off with every counter and published rate at 0.
    pub fn stop(&mut self)
        ensures
            final(self)@ == old(self)@.stop(),
            !final(self)@.running,
            final(self)@.metrics == Throughput::zero(),
            final(self)@.wf(),
    {
        let target: u32 = self.target.millionths();
        assert(spec_valid_utilization(target as int));
        self.running = false;
        self.pending = None;
        self.metrics = Aggregator::new();
    }

    /// Adds `k` completed units to the live counter.
    pub fn record_units(&mut self, k: u64)
        ensures
            final(self)@ == (ControlState {
                metrics: old(self)@.metrics.record(k as nat),
                ..old(self)@
            }),
    {
        proof {
            use_type_invariant(&*self);
        }
        let mut metrics: Aggregator = self.metrics;
        metrics.record_units(k);
        self.metrics = metrics;
    }

    /// Folds one finished burst of `units` units and `elapsed_millis`
    /// milliseconds into the counters.
    pub fn record_burst(&mut self, units: u64, elapsed_millis: u64)
        ensures
            final(self)@ == (ControlState {
                metrics: old(self)@.metrics.record_burst(units as nat, elapsed_millis as nat),
                ..old(self)@
            }),
    {
        proof {
            use_type_invariant(&*self);
        }
        let mut metrics: Aggregator = self.metrics;
        metrics.record_burst(units, elapsed_millis);
        self.metrics = metrics;
    }

    /// The once-per-second sample of the aggregator.
    pub fn sample_tick(&mut self)
        ensures
            final(self)@ == old(self)@.sample(),
    {
        proof {
            use_type_invariant(&*self);
        }
        let mut metrics: Aggregator = self.metrics;
        metrics.sample_tick();
        self.metrics = metrics;
    }

    /// The overall rate that the last sample published.
    pub fn query_rate(&self) -> (rate: u64)
        ensures
            rate == self@.metrics.published,
    {
        self.metrics.query_rate()
    }

    /// The burst-only rate that the last sample published; 0 outside the
    /// duty-cycle mode.
    pub fn query_burst_rate(&self) -> (rate: u64)
        ensures
            rate == self@.shown_burst_rate(),
    {
        if self.mode == ExecutionMode::Bursty {
            self.metrics.query_burst_rate()
        } else {
            0
        }
    }
}

/// Every control operation keeps a well-formed state well-formed.
pub proof fn lemma_operations_preserve_wf(
    s: ControlState,
    requested: ExecutionMode,
    utilization: Option<i64>,
)
    requires
        s.wf(),
    ensures
        ControlState::initial().wf(),
        s.request(requested, utilization).wf(),
        s.complete_switch().wf(),
        s.stop().wf(),
        s.sample().wf(),
{
}

/// At most one strategy is active at any instant, and none while the load is
/// switched off.
pub proof fn lemma_at_most_one_active(s: ControlState, a: ExecutionMode, b: ExecutionMode)
    ensures
        s.is_active(a) && s.is_active(b) ==> a == b,
        !s.running ==> !s.is_active(a),
{
}

/// Stopping is idempotent: from any state, never started or already stopped,
/// a stop leaves the load switched off with every counter and published rate
/// at 0, and a second stop changes nothing.
pub proof fn lemma_stop_idempotent(s: ControlState)
    ensures
        !s.stop().running,
        s.stop().metrics == Throughput::zero(),
        s.stop().pending is None,
        s.stop().stop() == s.stop(),
        ControlState::initial().stop() == ControlState::initial(),
        forall|strategy: ExecutionMode| !s.stop().is_active(strategy),
{
}

/// After a stop the published rates stay at 0 for as long as nothing is
/// recorded, however many samples are taken.
pub proof fn lemma_stopped_rate_stays_zero(s: ControlState)
    ensures
        s.stop().sample().metrics == Throughput::zero(),
        s.stop().sample().metrics.published == 0,
        s.stop().sample().shown_burst_rate() == 0,
{
    assert((0nat * 1000) as int / 1 == 0);
}

/// Switching mode resets every counter and published rate before the new mode
/// starts: an acceptable request for another mode than the one running leaves
/// the load stopped with the aggregator at zero, the switch then starts the
/// requested mode with the aggregator still at zero, and a first sample with
/// nothing recorded publishes 0.
pub proof fn lemma_switch_resets_counters(
    s: ControlState,
    requested: ExecutionMode,
    utilization: Option<i64>,
)
    requires
        s.running,
        s.mode != requested,
        spec_acceptable(requested, utilization),
    ensures
        s.answer(requested, utilization) == Ok::<ModeStep, ControlError>(
            ModeStep::Grace { millis: GRACE_MILLIS },
        ),
        !s.request(requested, utilization).running,
        s.request(requested, utilization).metrics == Throughput::zero(),
        s.request(requested, utilization).pending == Some(requested),
        s.request(requested, utilization).complete_switch().is_active(requested),
        s.request(requested, utilization).complete_switch().metrics == Throughput::zero(),
        s.request(requested, utilization).complete_switch().sample().metrics.published == 0,
        s.request(requested, utilization).complete_switch().sample().metrics.published_burst == 0,
{
}

/// A request for the mode that is running is a no-op, and a request on a
/// stopped load starts the requested mode at once.
pub proof fn lemma_request_outcomes(
    s: ControlState,
    requested: ExecutionMode,
    utilization: Option<i64>,
)
    requires
        spec_acceptable(requested, utilization),
    ensures
        s.is_active(requested) ==> s.request(requested, utilization) == s && s.answer(
            requested,
            utilization,
        ) == Ok::<ModeStep, ControlError>(ModeStep::Done { outcome: StartOutcome::AlreadyRunning }),
        !s.running ==> s.request(requested, utilization).is_active(requested) && s.answer(
            requested,
            utilization,
        ) == Ok::<ModeStep, ControlError>(ModeStep::Done { outcome: StartOutcome::Started }),
        !s.running ==> s.request(requested, utilization).metrics == s.metrics,
{
}

/// For the duty-cycle strategy exactly the whole percentages 1 to 100 are
/// accepted among the whole percentages: 0 and 150 are refused, and a refused
/// request changes nothing.
pub proof fn lemma_percent_acceptance(s: ControlState, percent: int)
    requires
        -1_000_000_000 <= percent <= 1_000_000_000,
    ensures
        spec_acceptable(ExecutionMode::Bursty, Some((percent * 10_000) as i64)) <==> 1 <= percent
            <= 100,
        !spec_acceptable(ExecutionMode::Bursty, Some(0i64)),
        !spec_acceptable(ExecutionMode::Bursty, Some(1_500_000i64)),
        spec_acceptable(ExecutionMode::Bursty, None),
        !(1 <= percent <= 100) ==> s.request(
            ExecutionMode::Bursty,
            Some((percent * 10_000) as i64),
        ) == s,
        spec_acceptable(ExecutionMode::Threaded, Some((percent * 10_000) as i64)),
        spec_acceptable(ExecutionMode::FreshProcess, Some((percent * 10_000) as i64)),
{
}

} // verus!
