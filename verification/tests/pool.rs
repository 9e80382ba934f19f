use cpu_stress_reporter::pool::{plan_for, plan_for_machine, PoolPlan};

#[test]
fn one_worker_per_core_for_each_strategy() {
    assert_eq!(
        plan_for(8),
        PoolPlan { threaded_workers: 8, process_spawners: 8, burst_workers: 8 }
    );
    assert_eq!(
        plan_for(1),
        PoolPlan { threaded_workers: 1, process_spawners: 1, burst_workers: 1 }
    );
}

#[test]
fn no_core_found_still_gives_one_worker() {
    assert_eq!(
        plan_for(0),
        PoolPlan { threaded_workers: 1, process_spawners: 1, burst_workers: 1 }
    );
}

#[test]
fn very_large_machines_are_planned_as_they_are() {
    assert_eq!(plan_for(usize::MAX).threaded_workers, usize::MAX);
}

#[test]
fn machine_plan_follows_the_detected_cores() {
    let plan: PoolPlan = plan_for_machine();
    assert!(plan.threaded_workers >= 1);
    assert_eq!(plan.process_spawners, plan.threaded_workers);
    assert_eq!(plan.burst_workers, plan.threaded_workers);
    assert_eq!(plan, plan_for(num_cpus::get()));
}
