//! A micro-benchmarking core: calibrated batched timing of synchronous and
//! asynchronous operations, peak-memory windows over a pair of injected
//! counters, and average/min/max statistics over the collected samples.

pub mod bencher;
pub mod mem_window;
pub mod stats;
pub mod timing;
