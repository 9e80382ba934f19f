use cpu_stress_reporter::workload::{
    is_prime, next_candidate, run_fixed, Runner, RunnerAction, FIRST_CANDIDATE, POLL_INTERVAL_MS,
};

#[test]
fn small_numbers_are_classified() {
    let primes: Vec<u64> = vec![2, 3, 5, 7, 11, 13, 17, 19, 23, 29, 31, 37, 41, 43, 47];
    let mut n: u64 = 0;
    while n < 50 {
        assert_eq!(is_prime(n), primes.contains(&n), "n = {}", n);
        n += 1;
    }
}

#[test]
fn zero_and_one_are_not_prime() {
    assert!(!is_prime(0));
    assert!(!is_prime(1));
}

#[test]
fn two_is_the_only_even_prime() {
    assert!(is_prime(2));
    assert!(!is_prime(4));
    assert!(!is_prime(1_000_000));
    assert!(!is_prime(u64::MAX - 1));
}

#[test]
fn squares_of_primes_are_not_prime() {
    assert!(!is_prime(9));
    assert!(!is_prime(25));
    assert!(!is_prime(49));
    assert!(!is_prime(7919 * 7919));
    assert!(!is_prime(65537 * 65537));
}

#[test]
fn larger_primes_are_recognized() {
    assert!(is_prime(97));
    assert!(is_prime(7919));
    assert!(is_prime(65537));
    assert!(is_prime(4_294_967_291));
    assert!(is_prime(1_000_000_007));
}

#[test]
fn larger_composites_are_recognized() {
    assert!(!is_prime(4_294_967_297));
    assert!(!is_prime(1_000_000_007 * 3));
    assert!(!is_prime(u64::MAX));
}

#[test]
fn prime_count_below_ten_thousand() {
    let mut count: u32 = 0;
    let mut n: u64 = 0;
    while n < 10_000 {
        if is_prime(n) {
            count += 1;
        }
        n += 1;
    }
    assert_eq!(count, 1229);
}

#[test]
fn next_candidate_is_the_successor() {
    assert_eq!(next_candidate(2), 3);
    assert_eq!(next_candidate(3), 4);
    assert_eq!(next_candidate(u64::MAX - 1), u64::MAX);
}

#[test]
fn next_candidate_wraps_into_the_domain() {
    assert_eq!(next_candidate(u64::MAX), 2);
    assert_eq!(next_candidate(0), 2);
    assert_eq!(next_candidate(1), 2);
}

#[test]
fn run_fixed_of_nothing_is_nothing() {
    assert_eq!(run_fixed(0), 0);
}

#[test]
fn run_fixed_counts_the_primes_among_its_units() {
    assert_eq!(run_fixed(1), 1);
    assert_eq!(run_fixed(2), 2);
    assert_eq!(run_fixed(3), 2);
    assert_eq!(run_fixed(10), 5);
    assert_eq!(run_fixed(99), 25);
    assert_eq!(run_fixed(9_999), 1229);
}

#[test]
fn run_fixed_never_counts_more_than_it_ran() {
    let mut n: u64 = 0;
    while n < 200 {
        assert!(run_fixed(n) <= n);
        n += 1;
    }
}

#[test]
fn runner_starts_at_the_first_candidate() {
    let runner: Runner = Runner::new();
    assert_eq!(runner.candidate(), FIRST_CANDIDATE);
    assert_eq!(FIRST_CANDIDATE, 2);
}

#[test]
fn active_runner_completes_one_unit_per_step() {
    let mut runner: Runner = Runner::new();
    assert_eq!(runner.step(true), RunnerAction::UnitDone { held: true });
    assert_eq!(runner.candidate(), 3);
    assert_eq!(runner.step(true), RunnerAction::UnitDone { held: true });
    assert_eq!(runner.candidate(), 4);
    assert_eq!(runner.step(true), RunnerAction::UnitDone { held: false });
    assert_eq!(runner.candidate(), 5);
}

#[test]
fn parked_runner_keeps_its_place() {
    let mut runner: Runner = Runner::new();
    runner.step(true);
    runner.step(true);
    assert_eq!(runner.step(false), RunnerAction::Park { millis: POLL_INTERVAL_MS });
    assert_eq!(runner.step(false), RunnerAction::Park { millis: 100 });
    assert_eq!(runner.candidate(), 4);
    assert_eq!(runner.step(true), RunnerAction::UnitDone { held: false });
}

#[test]
fn runner_and_run_fixed_agree() {
    let mut runner: Runner = Runner::new();
    let mut held_units: u64 = 0;
    let mut done: u64 = 0;
    while done < 500 {
        if runner.step(true) == (RunnerAction::UnitDone { held: true }) {
            held_units += 1;
        }
        done += 1;
    }
    assert_eq!(held_units, run_fixed(500));
    assert_eq!(runner.candidate(), 502);
}
