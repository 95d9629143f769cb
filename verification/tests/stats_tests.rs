use microbench::stats::{Stats, Step};

fn sample(time: u128, mem: usize) -> Step {
    Step { time, mem }
}

#[test]
fn triple_aggregation() {
    let steps = vec![sample(10, 100), sample(20, 50), sample(30, 75)];
    let stats = Stats::from_steps(&steps);
    assert_eq!(stats.times_average, 20);
    assert_eq!(stats.times_min, 10);
    assert_eq!(stats.times_max, 30);
    assert_eq!(stats.mem_average, 75);
    assert_eq!(stats.mem_min, 50);
    assert_eq!(stats.mem_max, 100);
}

#[test]
fn extrema_per_channel_independent() {
    // The sample that minimizes time maximizes memory and vice versa.
    let steps = vec![sample(1, 900), sample(900, 1)];
    let stats = Stats::from_steps(&steps);
    assert_eq!(stats.times_min, 1);
    assert_eq!(stats.times_max, 900);
    assert_eq!(stats.mem_min, 1);
    assert_eq!(stats.mem_max, 900);
}

#[test]
fn aggregation_is_idempotent() {
    let steps = vec![sample(7, 3), sample(11, 9), sample(2, 27), sample(40, 1)];
    let once = Stats::from_steps(&steps);
    let twice = Stats::from_steps(&steps);
    assert_eq!(once, twice);
}

#[test]
fn single_sample() {
    let steps = vec![sample(42, 17)];
    let stats = Stats::from_steps(&steps);
    assert_eq!(stats.times_average, 42);
    assert_eq!(stats.times_min, 42);
    assert_eq!(stats.times_max, 42);
    assert_eq!(stats.mem_average, 17);
    assert_eq!(stats.mem_min, 17);
    assert_eq!(stats.mem_max, 17);
}

#[test]
fn average_truncates() {
    let steps = vec![sample(10, 1), sample(11, 2)];
    let stats = Stats::from_steps(&steps);
    assert_eq!(stats.times_average, 10);
    assert_eq!(stats.mem_average, 1);
}
