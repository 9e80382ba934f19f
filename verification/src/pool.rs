//! The size of the worker pools: one worker per core for each strategy.

use vstd::prelude::*;

verus! {

/// The workers that each strategy keeps. The pools of the strategies that are
/// not active exist all the same; their workers are parked.
#[derive(Clone, Copy, Debug, PartialEq, Eq, Structural)]
pub struct PoolPlan {
    /// The in-process work loops of the threaded strategy.
    pub threaded_workers: usize,
    /// The spawners of the fresh-process strategy.
    pub process_spawners: usize,
    /// The worker processes that one burst of the duty-cycle strategy runs.
    pub burst_workers: usize,
}

impl PoolPlan {
    /// Every strategy has the same number of workers, and at least one.
    pub open spec fn wf(self) -> bool {
        &&& self.threaded_workers >= 1
        &&& self.process_spawners == self.threaded_workers
        &&& self.burst_workers == self.threaded_workers
    }
}

/// The number of logical cores that `num_cpus::get` reports for this machine
/// and this process. Nothing is claimed of the number.
#[verifier::external_body]
fn detected_cores() -> (cores: usize) {
    num_cpus::get()
}

/// The plan for a machine on which `detected` cores were found: one worker
/// per core for each strategy, and one where no core was found.
pub fn plan_for(detected: usize) -> (plan: PoolPlan)
    ensures
        plan.wf(),
        plan.threaded_workers == if detected == 0 {
            1
        } else {
            detected
        },
{
    let width: usize = if detected == 0 {
        1
    } else {
        detected
    };
    PoolPlan { threaded_workers: width, process_spawners: width, burst_workers: width }
}

/// The plan for the machine that this process runs on.
pub fn plan_for_machine() -> (plan: PoolPlan)
    ensures
        plan.wf(),
{
    plan_for(detected_cores())
}

} // verus!
