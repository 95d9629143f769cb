use std::cell::Cell;
use std::sync::atomic::{AtomicUsize, Ordering};

use microbench::bencher::Bencher;
use microbench::stats::Step;

fn counters() -> (&'static AtomicUsize, &'static AtomicUsize) {
    (
        Box::leak(Box::new(AtomicUsize::new(0))),
        Box::leak(Box::new(AtomicUsize::new(0))),
    )
}

fn harness(name: &str, count: usize, bytes: usize) -> Bencher {
    let (counter, peak) = counters();
    Bencher::new(name.to_string(), count, bytes, counter, peak)
}

#[test]
fn new_starts_empty() {
    let b = harness("fresh", 8, 64);
    assert_eq!(b.name, "fresh");
    assert_eq!(b.count, 8);
    assert_eq!(b.bytes, 64);
    assert_eq!(b.steps.len(), 0);
    assert_eq!(b.n, 0);
    assert_eq!(b.poll, 0);
}

#[test]
fn calibration_formula() {
    let mut b = harness("calibrate", 1, 0);
    b.calibrate(2_000);
    assert_eq!(b.n, 500);
    b.calibrate(0);
    assert_eq!(b.n, 1_000_000);
    b.calibrate(1);
    assert_eq!(b.n, 1_000_000);
    b.calibrate(3);
    assert_eq!(b.n, 333_333);
    b.calibrate(1_000_000);
    assert_eq!(b.n, 1);
    b.calibrate(5_000_000_000);
    assert_eq!(b.n, 1);
}

#[test]
fn record_step_averages_per_operation() {
    let mut b = harness("record", 1, 0);
    b.calibrate(333_333);
    assert_eq!(b.n, 3);
    b.record_step(100, 10);
    assert_eq!(b.steps.len(), 1);
    assert_eq!(b.steps[0], Step { time: 33, mem: 3 });
}

#[test]
fn record_polls_divides_by_total_readings() {
    let mut b = harness("polls", 1, 0);
    b.record_polls(&vec![1, 2, 3, 4]);
    assert_eq!(b.poll, 2);
    b.record_polls(&vec![5]);
    assert_eq!(b.poll, 5);
    b.record_polls(&vec![1, 2]);
    assert_eq!(b.poll, 1);
}

#[test]
fn iter_collects_exactly_count_samples() {
    let calls = Cell::new(0usize);
    let mut b = harness("count-samples", 5, 0);
    b.iter(|| calls.set(calls.get() + 1));
    assert_eq!(b.steps.len(), 5);
    assert!(b.n >= 1);
    assert_eq!(calls.get(), 1 + 5 * b.n);
    assert_eq!(b.poll, 0);
}

#[test]
fn bench_once_reads_injected_peak() {
    let (counter, peak) = counters();
    let b = Bencher::new("peak".to_string(), 1, 0, counter, peak);
    let f = || peak.store(4096, Ordering::SeqCst);
    let (_, observed) = b.bench_once(&f, 2);
    assert_eq!(observed, 4096);
}

#[test]
fn reset_mem_zeroes_both_counters() {
    let (counter, peak) = counters();
    counter.store(77, Ordering::SeqCst);
    peak.store(99, Ordering::SeqCst);
    let b = Bencher::new("reset".to_string(), 1, 0, counter, peak);
    b.reset_mem();
    assert_eq!(b.get_mem_peak(), 0);
    assert_eq!(counter.load(Ordering::SeqCst), 0);
}

#[test]
fn finish_aggregates_collected_samples() {
    let mut b = harness("finish", 3, 0);
    b.calibrate(1_000_000);
    assert_eq!(b.n, 1);
    b.record_step(10, 100);
    b.record_step(20, 50);
    b.record_step(30, 75);
    let stats = b.finish();
    assert_eq!(stats.times_average, 20);
    assert_eq!(stats.times_min, 10);
    assert_eq!(stats.times_max, 30);
    assert_eq!(stats.mem_average, 75);
    assert_eq!(stats.mem_min, 50);
    assert_eq!(stats.mem_max, 100);
}

#[test]
fn synchronous_noop_report() {
    let mut b = harness("noop", 5, 0);
    b.iter(|| {});
    let report = b.report();
    assert_eq!(report.count, 5);
    assert!(report.n >= 1);
    assert!(report.avg_polls.is_none());
}

#[test]
fn report_carries_positive_poll_average() {
    let mut b = harness("async-ish", 1, 0);
    b.calibrate(1_000_000);
    b.record_step(40, 4);
    b.record_polls(&vec![2, 4]);
    let report = b.report();
    assert_eq!(report.avg_polls, Some(3));
    assert_eq!(report.times_average, 40);
    assert_eq!(report.times_spread, 0);
    assert_eq!(report.mem_average, 4);
    assert_eq!(report.mem_spread, 0);
    assert_eq!(report.n, 1);
}
