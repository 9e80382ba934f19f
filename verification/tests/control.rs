use cpu_stress_reporter::bursty::{idle_millis, BurstAction, BurstController};
use cpu_stress_reporter::mode::{ControlError, ExecutionMode, Utilization};
use cpu_stress_reporter::orchestrator::{ModeStep, Orchestrator, StartOutcome, GRACE_MILLIS};
use cpu_stress_reporter::report::{error_message, rate_line, start_message, stop_message};
use cpu_stress_reporter::workload::{Runner, RunnerAction, POLL_INTERVAL_MS};

const STARTED: Result<ModeStep, ControlError> =
    Ok(ModeStep::Done { outcome: StartOutcome::Started });
const ALREADY: Result<ModeStep, ControlError> =
    Ok(ModeStep::Done { outcome: StartOutcome::AlreadyRunning });
const GRACE: Result<ModeStep, ControlError> = Ok(ModeStep::Grace { millis: 200 });

fn all_modes() -> Vec<ExecutionMode> {
    vec![ExecutionMode::Threaded, ExecutionMode::FreshProcess, ExecutionMode::Bursty]
}

fn assert_counters_zero(o: &mut Orchestrator) {
    assert_eq!(o.query_rate(), 0);
    let mut probe: Orchestrator = *o;
    probe.sample_tick();
    assert_eq!(probe.query_rate(), 0);
    let mut as_bursty: Orchestrator = *o;
    as_bursty.stop();
    as_bursty.request_mode(ExecutionMode::Bursty, None).expect("accepted");
    assert_eq!(as_bursty.query_burst_rate(), 0);
}

#[test]
fn starts_stopped_in_fresh_process_mode_at_half_load() {
    let o: Orchestrator = Orchestrator::new();
    assert!(!o.is_running());
    assert_eq!(o.mode(), ExecutionMode::FreshProcess);
    assert_eq!(o.target_utilization(), Utilization::half());
    assert_eq!(o.pending_switch(), None);
    assert_eq!(o.query_rate(), 0);
    assert_eq!(o.query_burst_rate(), 0);
    for mode in all_modes() {
        assert!(!o.is_active(mode));
    }
}

#[test]
fn start_from_stopped_runs_the_requested_mode() {
    for mode in all_modes() {
        let mut o: Orchestrator = Orchestrator::new();
        assert_eq!(o.request_mode(mode, None), STARTED);
        assert!(o.is_running());
        assert_eq!(o.mode(), mode);
        assert!(o.is_active(mode));
        assert_eq!(o.pending_switch(), None);
    }
}

#[test]
fn at_most_one_strategy_is_active() {
    for running in all_modes() {
        let mut o: Orchestrator = Orchestrator::new();
        o.request_mode(running, None).expect("accepted");
        for strategy in all_modes() {
            assert_eq!(o.is_active(strategy), strategy == running);
        }
        o.stop();
        for strategy in all_modes() {
            assert!(!o.is_active(strategy));
        }
    }
}

#[test]
fn same_mode_again_is_a_no_op() {
    let mut o: Orchestrator = Orchestrator::new();
    o.request_mode(ExecutionMode::Threaded, None).expect("accepted");
    o.record_units(11);
    o.sample_tick();
    o.record_units(4);
    assert_eq!(o.request_mode(ExecutionMode::Threaded, None), ALREADY);
    assert!(o.is_active(ExecutionMode::Threaded));
    assert_eq!(o.query_rate(), 11);
    o.sample_tick();
    assert_eq!(o.query_rate(), 4);
}

#[test]
fn same_bursty_mode_again_keeps_the_target() {
    let mut o: Orchestrator = Orchestrator::new();
    o.request_mode(ExecutionMode::Bursty, Some(600_000)).expect("accepted");
    assert_eq!(o.request_mode(ExecutionMode::Bursty, Some(250_000)), ALREADY);
    assert_eq!(o.target_utilization().millionths(), 600_000);
}

#[test]
fn switching_stops_resets_and_asks_for_the_grace_interval() {
    let mut o: Orchestrator = Orchestrator::new();
    o.request_mode(ExecutionMode::Threaded, None).expect("accepted");
    o.record_units(1000);
    o.sample_tick();
    o.record_units(77);
    assert_eq!(o.query_rate(), 1000);
    assert_eq!(o.request_mode(ExecutionMode::FreshProcess, None), GRACE);
    assert_eq!(GRACE_MILLIS, 200);
    assert!(GRACE_MILLIS >= POLL_INTERVAL_MS);
    assert!(!o.is_running());
    assert_eq!(o.pending_switch(), Some(ExecutionMode::FreshProcess));
    for strategy in all_modes() {
        assert!(!o.is_active(strategy));
    }
    assert_counters_zero(&mut o);
    assert_eq!(o.complete_switch(), Some(StartOutcome::Restarted));
    assert!(o.is_active(ExecutionMode::FreshProcess));
    assert_eq!(o.pending_switch(), None);
    assert_eq!(o.query_rate(), 0);
    o.sample_tick();
    assert_eq!(o.query_rate(), 0);
}

#[test]
fn every_switch_resets_every_counter() {
    for from in all_modes() {
        for to in all_modes() {
            if from == to {
                continue;
            }
            let mut o: Orchestrator = Orchestrator::new();
            o.request_mode(from, None).expect("accepted");
            o.record_units(5);
            o.record_burst(700, 350);
            o.sample_tick();
            o.record_units(6);
            o.record_burst(10, 10);
            assert_eq!(o.request_mode(to, None), GRACE);
            assert_counters_zero(&mut o);
            assert_eq!(o.complete_switch(), Some(StartOutcome::Restarted));
            assert!(o.is_active(to));
            o.sample_tick();
            assert_eq!(o.query_rate(), 0);
            assert_eq!(o.query_burst_rate(), 0);
        }
    }
}

#[test]
fn units_recorded_during_the_grace_interval_are_kept() {
    let mut o: Orchestrator = Orchestrator::new();
    o.request_mode(ExecutionMode::Threaded, None).expect("accepted");
    assert_eq!(o.request_mode(ExecutionMode::FreshProcess, None), GRACE);
    o.record_units(1);
    assert_eq!(o.complete_switch(), Some(StartOutcome::Restarted));
    o.sample_tick();
    assert_eq!(o.query_rate(), 1);
}

#[test]
fn complete_switch_without_a_switch_changes_nothing() {
    let mut o: Orchestrator = Orchestrator::new();
    assert_eq!(o.complete_switch(), None);
    assert!(!o.is_running());
    o.request_mode(ExecutionMode::Threaded, None).expect("accepted");
    o.record_units(3);
    assert_eq!(o.complete_switch(), None);
    assert!(o.is_active(ExecutionMode::Threaded));
    o.sample_tick();
    assert_eq!(o.query_rate(), 3);
}

#[test]
fn stop_during_the_grace_interval_cancels_the_switch() {
    let mut o: Orchestrator = Orchestrator::new();
    o.request_mode(ExecutionMode::Threaded, None).expect("accepted");
    assert_eq!(o.request_mode(ExecutionMode::Bursty, Some(300_000)), GRACE);
    o.stop();
    assert_eq!(o.pending_switch(), None);
    assert_eq!(o.complete_switch(), None);
    assert!(!o.is_running());
}

#[test]
fn request_during_the_grace_interval_starts_at_once() {
    let mut o: Orchestrator = Orchestrator::new();
    o.request_mode(ExecutionMode::Threaded, None).expect("accepted");
    assert_eq!(o.request_mode(ExecutionMode::Bursty, None), GRACE);
    assert_eq!(o.request_mode(ExecutionMode::FreshProcess, None), STARTED);
    assert!(o.is_active(ExecutionMode::FreshProcess));
    assert_eq!(o.complete_switch(), None);
    assert!(o.is_active(ExecutionMode::FreshProcess));
}

#[test]
fn stop_is_idempotent() {
    let mut o: Orchestrator = Orchestrator::new();
    o.request_mode(ExecutionMode::Threaded, None).expect("accepted");
    o.record_units(9);
    o.sample_tick();
    o.record_units(9);
    o.stop();
    assert!(!o.is_running());
    assert_counters_zero(&mut o);
    let mode_after_first: ExecutionMode = o.mode();
    o.stop();
    assert!(!o.is_running());
    assert_counters_zero(&mut o);
    assert_eq!(o.mode(), mode_after_first);
}

#[test]
fn stop_when_never_started_succeeds() {
    let mut o: Orchestrator = Orchestrator::new();
    o.stop();
    o.stop();
    assert!(!o.is_running());
    assert_eq!(o.mode(), ExecutionMode::FreshProcess);
    assert_counters_zero(&mut o);
}

#[test]
fn stopped_rate_stays_zero() {
    let mut o: Orchestrator = Orchestrator::new();
    o.request_mode(ExecutionMode::Threaded, None).expect("accepted");
    o.record_units(500);
    o.sample_tick();
    assert!(o.query_rate() > 0);
    o.stop();
    assert_eq!(o.query_rate(), 0);
    let mut samples: u32 = 0;
    while samples < 5 {
        o.sample_tick();
        assert_eq!(o.query_rate(), 0);
        assert_eq!(o.query_burst_rate(), 0);
        samples += 1;
    }
}

#[test]
fn bursty_accepts_one_to_hundred_percent() {
    let mut percent: i64 = 1;
    while percent <= 100 {
        let mut o: Orchestrator = Orchestrator::new();
        assert_eq!(o.request_mode(ExecutionMode::Bursty, Some(percent * 10_000)), STARTED);
        assert_eq!(o.target_utilization().millionths() as i64, percent * 10_000);
        percent += 1;
    }
}

#[test]
fn bursty_rejects_zero_percent() {
    let mut o: Orchestrator = Orchestrator::new();
    assert_eq!(
        o.request_mode(ExecutionMode::Bursty, Some(0)),
        Err(ControlError::InvalidUtilization { millionths: 0 })
    );
    assert!(!o.is_running());
}

#[test]
fn bursty_rejects_hundred_and_fifty_percent() {
    let mut o: Orchestrator = Orchestrator::new();
    assert_eq!(
        o.request_mode(ExecutionMode::Bursty, Some(1_500_000)),
        Err(ControlError::InvalidUtilization { millionths: 1_500_000 })
    );
    assert!(!o.is_running());
}

#[test]
fn bursty_rejects_negative_utilization() {
    let mut o: Orchestrator = Orchestrator::new();
    assert_eq!(
        o.request_mode(ExecutionMode::Bursty, Some(-1)),
        Err(ControlError::InvalidUtilization { millionths: -1 })
    );
}

#[test]
fn bursty_accepts_fractional_utilization() {
    let mut o: Orchestrator = Orchestrator::new();
    assert_eq!(o.request_mode(ExecutionMode::Bursty, Some(625_000)), STARTED);
    assert_eq!(o.target_utilization().millionths(), 625_000);
    let mut tiny: Orchestrator = Orchestrator::new();
    assert_eq!(tiny.request_mode(ExecutionMode::Bursty, Some(1)), STARTED);
}

#[test]
fn bursty_without_utilization_runs_at_half_load() {
    let mut o: Orchestrator = Orchestrator::new();
    o.request_mode(ExecutionMode::Bursty, Some(900_000)).expect("accepted");
    o.stop();
    assert_eq!(o.request_mode(ExecutionMode::Bursty, None), STARTED);
    assert_eq!(o.target_utilization(), Utilization::half());
}

#[test]
fn rejected_request_changes_nothing() {
    let mut o: Orchestrator = Orchestrator::new();
    o.request_mode(ExecutionMode::Threaded, None).expect("accepted");
    o.record_units(8);
    o.sample_tick();
    o.record_units(2);
    assert!(o.request_mode(ExecutionMode::Bursty, Some(0)).is_err());
    assert!(o.is_active(ExecutionMode::Threaded));
    assert_eq!(o.target_utilization(), Utilization::half());
    assert_eq!(o.pending_switch(), None);
    assert_eq!(o.query_rate(), 8);
    o.sample_tick();
    assert_eq!(o.query_rate(), 2);
}

#[test]
fn utilization_is_not_looked_at_for_other_modes() {
    let mut o: Orchestrator = Orchestrator::new();
    assert_eq!(o.request_mode(ExecutionMode::Threaded, Some(0)), STARTED);
    assert_eq!(o.request_mode(ExecutionMode::FreshProcess, Some(1_500_000)), GRACE);
    assert_eq!(o.target_utilization(), Utilization::half());
}

#[test]
fn burst_rate_is_shown_only_in_bursty_mode() {
    let mut o: Orchestrator = Orchestrator::new();
    o.request_mode(ExecutionMode::Threaded, None).expect("accepted");
    o.record_burst(4000, 2000);
    o.sample_tick();
    assert_eq!(o.query_rate(), 4000);
    assert_eq!(o.query_burst_rate(), 0);
    let mut b: Orchestrator = Orchestrator::new();
    b.request_mode(ExecutionMode::Bursty, None).expect("accepted");
    b.record_burst(4000, 2000);
    b.sample_tick();
    assert_eq!(b.query_rate(), 4000);
    assert_eq!(b.query_burst_rate(), 2000);
}

#[test]
fn refusal_is_distinguishable_and_descriptive() {
    let mut o: Orchestrator = Orchestrator::new();
    match o.request_mode(ExecutionMode::Bursty, Some(1_500_000)) {
        Err(e) => assert_eq!(
            error_message(e),
            "Error: utilization must be between 0 and 100 (got 150)\n"
        ),
        Ok(_) => panic!("150% was accepted"),
    }
}

#[test]
fn scenario_threaded_then_fresh_process_then_stop_then_bursty() {
    let mut o: Orchestrator = Orchestrator::new();

    assert_eq!(o.request_mode(ExecutionMode::Threaded, None), STARTED);
    assert_eq!(
        start_message(StartOutcome::Started, o.mode(), o.target_utilization()),
        "CPU stress test started with mode: threaded\n"
    );
    let mut worker: Runner = Runner::new();
    let mut steps: u32 = 0;
    while steps < 1000 {
        match worker.step(o.is_active(ExecutionMode::Threaded)) {
            RunnerAction::UnitDone { .. } => o.record_units(1),
            RunnerAction::Park { .. } => panic!("an active worker parked"),
        }
        steps += 1;
    }
    o.sample_tick();
    assert!(o.query_rate() > 0);
    assert_eq!(rate_line(o.query_rate()), "1000\n");

    assert_eq!(o.request_mode(ExecutionMode::FreshProcess, None), GRACE);
    assert_eq!(
        worker.step(o.is_active(ExecutionMode::Threaded)),
        RunnerAction::Park { millis: 100 }
    );
    let outcome: StartOutcome = o.complete_switch().expect("a switch was pending");
    let answer: String = start_message(outcome, o.mode(), o.target_utilization());
    assert_eq!(answer, "CPU stress test restarted with mode: fresh-process\n");
    assert!(answer.contains("fresh-process"));
    assert_eq!(
        worker.step(o.is_active(ExecutionMode::Threaded)),
        RunnerAction::Park { millis: 100 }
    );
    o.sample_tick();
    assert_eq!(o.query_rate(), 0);

    o.record_units(20_000);
    o.stop();
    assert_eq!(stop_message(), "CPU stress test stopped\n");
    assert_eq!(o.query_rate(), 0);
    o.sample_tick();
    o.sample_tick();
    assert_eq!(o.query_rate(), 0);

    assert_eq!(o.request_mode(ExecutionMode::Bursty, Some(1_000_000)), STARTED);
    assert_eq!(
        start_message(StartOutcome::Started, o.mode(), o.target_utilization()),
        "CPU stress test started with mode: bursty, utilization: 100%\n"
    );
    assert_eq!(idle_millis(1500, o.target_utilization()), 0);
    let mut coordinator: BurstController = BurstController::new(4, 20_000);
    let mut bursts: u32 = 0;
    while bursts < 5 {
        assert_eq!(
            coordinator.poll(o.is_active(ExecutionMode::Bursty)),
            BurstAction::StartBurst { workers: 4, ops_per_worker: 20_000 }
        );
        o.record_burst(80_000, 200);
        coordinator.burst_finished(1500, o.target_utilization());
        bursts += 1;
    }
    o.sample_tick();
    assert_eq!(o.query_rate(), 400_000);
    assert_eq!(o.query_burst_rate(), o.query_rate());
}
