//! Execution modes, the target utilization of the duty-cycle strategy, and the
//! one error a control operation can report.
//!
//! A utilization is held in millionths of full load, so that every rule about
//! it is a rule about integers.

use vstd::prelude::*;

verus! {

/// Full load, in millionths.
pub const FULL_LOAD: u32 = 1_000_000;

/// The utilization that a request for the duty-cycle strategy gets when it
/// names none: half load.
pub const DEFAULT_LOAD: u32 = 500_000;

/// Millionths of full load in one percent.
pub const MILLIONTHS_PER_PERCENT: u32 = 10_000;

/// The strategy that is authorized to produce load.
#[derive(Clone, Copy, Debug, PartialEq, Eq, Structural)]
pub enum ExecutionMode {
    /// A work loop per core inside this process.
    Threaded,
    /// Per core, one disposable worker process after another.
    FreshProcess,
    /// Bursts of worker processes separated by idle time.
    Bursty,
}

/// The name by which requests and responses call a mode.
pub open spec fn spec_mode_name(mode: ExecutionMode) -> Seq<char> {
    match mode {
        ExecutionMode::Threaded => "threaded"@,
        ExecutionMode::FreshProcess => "fresh-process"@,
        ExecutionMode::Bursty => "bursty"@,
    }
}

/// The mode that a name stands for, if it is one of the three names.
pub open spec fn spec_mode_from_name(name: Seq<char>) -> Option<ExecutionMode> {
    if name == "threaded"@ {
        Some(ExecutionMode::Threaded)
    } else if name == "fresh-process"@ {
        Some(ExecutionMode::FreshProcess)
    } else if name == "bursty"@ {
        Some(ExecutionMode::Bursty)
    } else {
        None
    }
}

impl ExecutionMode {
    /// The mode's name on the control surface.
    pub fn name(&self) -> (name: &'static str)
        ensures
            name@ == spec_mode_name(*self),
    {
        match self {
            ExecutionMode::Threaded => "threaded",
            ExecutionMode::FreshProcess => "fresh-process",
            ExecutionMode::Bursty => "bursty",
        }
    }

    /// Reads a mode's name; any other text names no mode.
    pub fn from_name(name: &str) -> (mode: Option<ExecutionMode>)
        ensures
            mode == spec_mode_from_name(name@),
    {
        let given: String = name.to_owned();
        if given == "threaded".to_owned() {
            Some(ExecutionMode::Threaded)
        } else if given == "fresh-process".to_owned() {
            Some(ExecutionMode::FreshProcess)
        } else if given == "bursty".to_owned() {
            Some(ExecutionMode::Bursty)
        } else {
            None
        }
    }
}

/// Every mode is read back from its own name.
pub proof fn lemma_mode_name_round_trip(mode: ExecutionMode)
    ensures
        spec_mode_from_name(spec_mode_name(mode)) == Some(mode),
{
    reveal_strlit("threaded");
    reveal_strlit("fresh-process");
    reveal_strlit("bursty");
    assert("threaded"@.len() == 8);
    assert("fresh-process"@.len() == 13);
    assert("bursty"@.len() == 6);
}

/// A control operation was given a parameter that it cannot accept.
#[derive(Clone, Copy, Debug, PartialEq, Eq, Structural)]
pub enum ControlError {
    /// The utilization, in millionths of full load, lies outside `1..=1_000_000`.
    InvalidUtilization { millionths: i64 },
}

/// `millionths` is a utilization above nothing and at most full load.
pub open spec fn spec_valid_utilization(millionths: int) -> bool {
    0 < millionths <= FULL_LOAD
}

/// A target utilization: a fraction of wall-clock time in `(0, 1]`, held in
/// millionths.
#[derive(Clone, Copy, Debug, PartialEq, Eq)]
pub struct Utilization {
    millionths: u32,
}

impl View for Utilization {
    type V = nat;

    /// The utilization in millionths of full load.
    closed spec fn view(&self) -> nat {
        self.millionths as nat
    }
}

impl Utilization {
    /// What every value of the type satisfies.
    #[verifier::type_invariant]
    closed spec fn in_range(&self) -> bool {
        0 < self.millionths <= FULL_LOAD
    }

    /// Accepts exactly the utilizations in `1..=1_000_000` millionths; any
    /// other is refused, the refusal carrying the value.
    pub fn from_millionths(millionths: i64) -> (r: Result<Utilization, ControlError>)
        ensures
            r is Ok <==> spec_valid_utilization(millionths as int),
            r matches Ok(u) ==> u@ == millionths,
            r matches Err(e) ==> e == (ControlError::InvalidUtilization { millionths }),
    {
        if 0 < millionths && millionths <= FULL_LOAD as i64 {
            Ok(Utilization { millionths: millionths as u32 })
        } else {
            Err(ControlError::InvalidUtilization { millionths })
        }
    }

    /// Accepts exactly the whole percentages `1..=100`.
    pub fn from_percent(percent: i32) -> (r: Result<Utilization, ControlError>)
        ensures
            r is Ok <==> 1 <= percent <= 100,
            r matches Ok(u) ==> u@ == percent * MILLIONTHS_PER_PERCENT,
            r matches Err(e) ==> e == (ControlError::InvalidUtilization {
                millionths: (percent * MILLIONTHS_PER_PERCENT) as i64,
            }),
    {
        assert(MILLIONTHS_PER_PERCENT == 10_000);
        Utilization::from_millionths(percent as i64 * 10_000)
    }

    /// Full load: no idle time at all.
    pub fn full() -> (u: Utilization)
        ensures
            u@ == FULL_LOAD,
    {
        Utilization { millionths: FULL_LOAD }
    }

    /// Half load.
    pub fn half() -> (u: Utilization)
        ensures
            u@ == DEFAULT_LOAD,
    {
        Utilization { millionths: DEFAULT_LOAD }
    }

    /// The utilization in millionths of full load.
    pub fn millionths(&self) -> (m: u32)
        ensures
            m == self@,
            0 < m <= FULL_LOAD,
    {
        proof {
            use_type_invariant(self);
        }
        self.millionths
    }
}

} // verus!
