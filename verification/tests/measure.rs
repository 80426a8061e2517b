use bench_timer::{bench_once, bench_times, calc_iterations};
use std::time::{Duration, Instant};

/// Keeps the calling thread busy until `length` has passed on the clock.
fn busy_for(length: Duration) {
    let start = Instant::now();
    while start.elapsed() < length {
        std::hint::spin_loop();
    }
}

#[test]
fn bench_once_runs_the_operation_once() {
    let mut calls = 0u32;
    let _elapsed = bench_once(|| calls += 1);
    assert_eq!(calls, 1);
}

#[test]
fn bench_once_of_a_fast_operation_is_not_negative() {
    let elapsed = bench_once(|| 1 + 1);
    assert!(elapsed >= Duration::ZERO);
}

#[test]
fn bench_once_takes_an_operation_that_gives_up_what_it_owns() {
    let text = String::from("moved into the operation");
    let elapsed = bench_once(move || text);
    assert!(elapsed >= Duration::ZERO);
}

#[test]
fn bench_once_covers_the_time_the_operation_takes() {
    let elapsed = bench_once(|| busy_for(Duration::from_millis(10)));
    assert!(elapsed >= Duration::from_micros(9_500));
}

#[test]
fn bench_once_is_bounded_by_the_time_around_it() {
    let around = Instant::now();
    let elapsed = bench_once(|| busy_for(Duration::from_millis(2)));
    assert!(elapsed <= around.elapsed());
}

#[test]
fn bench_times_of_zero_gives_nothing_and_calls_nothing() {
    let mut calls = 0u32;
    let best = bench_times(0, || calls += 1);
    assert_eq!(best, None);
    assert_eq!(calls, 0);
}

#[test]
fn bench_times_of_one_runs_once() {
    let mut calls = 0u32;
    let best = bench_times(1, || calls += 1);
    assert!(best.is_some());
    assert_eq!(calls, 1);
}

#[test]
fn bench_times_runs_the_operation_as_often_as_asked() {
    for n in [2u128, 3, 10, 1_000] {
        let mut calls = 0u128;
        let best = bench_times(n, || calls += 1);
        assert!(best.is_some());
        assert_eq!(calls, n);
    }
}

#[test]
fn bench_times_reuses_the_state_of_the_operation() {
    let mut seen: Vec<u32> = Vec::new();
    let mut next = 0u32;
    let _best = bench_times(4, || {
        seen.push(next);
        next += 1;
    });
    assert_eq!(seen, vec![0, 1, 2, 3]);
}

#[test]
fn bench_times_of_a_fixed_wait_stays_in_the_band() {
    let mut calls = 0u32;
    let around = Instant::now();
    let best = bench_times(5, || {
        calls += 1;
        busy_for(Duration::from_millis(10));
    });
    let whole = around.elapsed();
    assert_eq!(calls, 5);
    let best = best.unwrap();
    assert!(best >= Duration::from_micros(9_500));
    // The least of five samples is at most a fifth of the time they took together.
    assert!(best <= whole / 5);
}

#[test]
fn bench_times_gives_the_shortest_of_the_runs() {
    // The second run is by far the shortest; the result must be its sample.
    let waits = [
        Duration::from_millis(80),
        Duration::from_millis(5),
        Duration::from_millis(80),
    ];
    let mut run = 0usize;
    let best = bench_times(3, || {
        let wait = waits[run];
        run += 1;
        busy_for(wait);
    });
    assert_eq!(run, 3);
    let best = best.unwrap();
    assert!(best >= Duration::from_millis(5));
    assert!(best < Duration::from_millis(80));
}

#[test]
fn bench_times_keeps_a_short_first_run() {
    let waits = [Duration::from_millis(5), Duration::from_millis(80)];
    let mut run = 0usize;
    let best = bench_times(2, || {
        let wait = waits[run];
        run += 1;
        busy_for(wait);
    });
    let best = best.unwrap();
    assert!(best >= Duration::from_millis(5));
    assert!(best < Duration::from_millis(80));
}

#[test]
fn measured_run_feeds_the_estimate() {
    let single = bench_once(|| busy_for(Duration::from_millis(10)));
    let count = calc_iterations(single, Duration::from_secs(1));
    // A run of at least 9.5 ms fits at most 105 times into a second.
    assert!(count <= 105);
    assert_eq!(count, 1_000_000_000 / single.as_nanos());
}
