//! The bench harness: calibration, repeated sampling, and finalization.
//!
//! The harness owns one benchmark run: it calibrates a per-batch repetition
//! count from a single warm-up measurement, collects one `Step` per sampling
//! batch, and reduces the collected steps to `Stats` at the end. The two
//! memory counters it resets and reads are injected at construction and are
//! owned by an external allocation tracker; the harness treats them as
//! opaque shared state, so nothing is claimed of their readings.

use core::sync::atomic::AtomicUsize;
use vstd::prelude::*;

use crate::stats::{lemma_min_le_max, stats_of, times_sum, Stats, Step};

verus! {

use vstd::arithmetic::div_mod::{lemma_div_is_ordered, lemma_div_multiples_vanish};

/// The harness for one benchmark run.
pub struct Bencher {
    /// Name of the benchmark, used only for reporting.
    pub name: String,
    /// Requested number of samples; at least one must be requested before a
    /// run is finalized.
    pub count: usize,
    /// The collected samples, in run order.
    pub steps: Vec<Step>,
    /// Payload size in bytes of one operation, for throughput reporting.
    pub bytes: usize,
    /// Calibrated repetition count: operations per sampling batch.
    pub n: usize,
    /// Average resumption count over the whole run; stays zero on the
    /// synchronous path.
    pub poll: usize,
    /// The injected counter pair of the external allocation tracker:
    /// currently allocated bytes, and the peak since the last reset.
    pub mem_track: (&'static AtomicUsize, &'static AtomicUsize),
}

/// The calibrated repetition count for a warm-up measurement of
/// `single_ns` nanoseconds: enough repetitions that one batch lasts roughly
/// one millisecond, floored at one so that a slow operation still makes
/// progress and no division by zero can arise.
pub open spec fn calibrated_reps(single_ns: u128) -> usize {
    let d: int = if single_ns >= 1 {
        single_ns as int
    } else {
        1
    };
    let q: int = 1_000_000int / d;
    if q >= 1 {
        q as usize
    } else {
        1
    }
}

/// One sample of a batch of `n` operations that took `total_ns`
/// nanoseconds in all and peaked at `peak_bytes` allocated bytes: each
/// channel is the per-operation average under integer division.
pub open spec fn step_of(total_ns: u128, peak_bytes: usize, n: usize) -> Step
    recommends
        n >= 1,
{
    Step {
        time: (total_ns as int / n as int) as u128,
        mem: (peak_bytes as int / n as int) as usize,
    }
}

/// Total of a flat sequence of per-operation resumption counts.
pub open spec fn polls_sum(s: Seq<usize>) -> int
    decreases s.len(),
{
    if s.len() == 0 {
        0
    } else {
        polls_sum(s.drop_last()) + s.last()
    }
}

impl Bencher {
    /// A harness for one benchmark: `count` samples of an operation moving
    /// `bytes` bytes per call, over the injected counter pair `counter` and
    /// `peak` of the external allocation tracker.
    pub fn new(
        name: String,
        count: usize,
        bytes: usize,
        counter: &'static AtomicUsize,
        peak: &'static AtomicUsize,
    ) -> (r: Bencher)
        ensures
            r.name == name,
            r.count == count,
            r.bytes == bytes,
            r.steps@.len() == 0,
            r.n == 0,
            r.poll == 0,
            r.mem_track == ((counter, peak)),
    {
        Bencher {
            name,
            count,
            steps: Vec::with_capacity(count),
            bytes,
            n: 0,
            poll: 0,
            mem_track: (counter, peak),
        }
    }

    /// Atomically zero both injected counters.
    pub fn reset_mem(&self) {
        self.mem_track.0.store(0, core::sync::atomic::Ordering::SeqCst);
        self.mem_track.1.store(0, core::sync::atomic::Ordering::SeqCst);
    }

    /// Read the peak-allocated counter. The counters are shared state owned
    /// by the external tracker, so nothing is claimed of the value.
    pub fn get_mem_peak(&self) -> usize {
        self.mem_track.1.load(core::sync::atomic::Ordering::SeqCst)
    }

    /// Run the operation `n` times back to back inside one timed and
    /// memory-reset window, and return the total elapsed nanoseconds and the
    /// post-batch peak-memory reading. Both are measurements of the
    /// environment, so nothing is claimed of them.
    pub fn bench_once<T, F: Fn() -> T>(&self, f: &F, n: usize) -> (u128, usize)
        requires
            call_requires(*f, ()),
    {
        let now = std::time::Instant::now();
        self.reset_mem();

        let mut i: usize = 0;
        while i < n
            invariant
                call_requires(*f, ()),
            decreases n - i,
        {
            let _output = f();
            i = i + 1;
        }

        (now.elapsed().as_nanos(), self.get_mem_peak())
    }

    /// Fix the repetition count from the warm-up measurement `single_ns`:
    /// exactly `max(1, 1_000_000 / max(single_ns, 1))` operations per batch.
    pub fn calibrate(&mut self, single_ns: u128)
        ensures
            final(self).n == calibrated_reps(single_ns),
            1 <= final(self).n <= 1_000_000,
            final(self).name == old(self).name,
            final(self).count == old(self).count,
            final(self).steps == old(self).steps,
            final(self).bytes == old(self).bytes,
            final(self).poll == old(self).poll,
            final(self).mem_track == old(self).mem_track,
    {
        let single: u128 = if single_ns >= 1 {
            single_ns
        } else {
            1
        };
        let q: u128 = 1_000_000 / single;
        let reps: u128 = if q >= 1 {
            q
        } else {
            1
        };
        self.n = reps as usize;
    }

    /// Append the sample of one batch: `total_ns` nanoseconds and
    /// `peak_bytes` peak allocated bytes over `n` operations, averaged
    /// per operation.
    pub fn record_step(&mut self, total_ns: u128, peak_bytes: usize)
        requires
            old(self).n >= 1,
        ensures
            final(self).steps@ == old(self).steps@.push(
                step_of(total_ns, peak_bytes, old(self).n),
            ),
            final(self).name == old(self).name,
            final(self).count == old(self).count,
            final(self).bytes == old(self).bytes,
            final(self).n == old(self).n,
            final(self).poll == old(self).poll,
            final(self).mem_track == old(self).mem_track,
    {
        let time: u128 = total_ns / (self.n as u128);
        let mem: usize = peak_bytes / self.n;
        self.steps.push(Step { time, mem });
    }

    /// The synchronous path: calibrate once from a single warm-up call, then
    /// collect exactly `count` samples, each the per-operation average of
    /// one batch of `n` back-to-back calls, appended in run order.
    pub fn iter<T, F: Fn() -> T>(&mut self, f: F)
        requires
            old(self).count >= 1,
            call_requires(f, ()),
        ensures
            final(self).steps@.len() == old(self).steps@.len() + old(self).count,
            forall|j: int|
                0 <= j < old(self).steps@.len() ==> final(self).steps@[j] == old(self).steps@[j],
            exists|single_ns: u128| final(self).n == calibrated_reps(single_ns),
            1 <= final(self).n <= 1_000_000,
            final(self).name == old(self).name,
            final(self).count == old(self).count,
            final(self).bytes == old(self).bytes,
            final(self).poll == old(self).poll,
            final(self).mem_track == old(self).mem_track,
    {
        let warmup = self.bench_once(&f, 1);
        self.calibrate(warmup.0);

        let count = self.count;
        let mut i: usize = 0;
        while i < count
            invariant
                call_requires(f, ()),
                i <= count,
                self.count == count,
                exists|single_ns: u128| self.n == calibrated_reps(single_ns),
                1 <= self.n <= 1_000_000,
                self.steps@.len() == old(self).steps@.len() + i,
                forall|j: int|
                    0 <= j < old(self).steps@.len() ==> self.steps@[j] == old(self).steps@[j],
                self.name == old(self).name,
                self.bytes == old(self).bytes,
                self.poll == old(self).poll,
                self.mem_track == old(self).mem_track,
            decreases count - i,
        {
            let batch = self.bench_once(&f, self.n);
            self.record_step(batch.0, batch.1);
            i = i + 1;
        }
    }

    /// Store the overall average resumption count: the total of the flat
    /// sequence of per-operation resumption counts collected across every
    /// batch, divided by the number of operations observed — not averaged
    /// per batch and averaged again.
    pub fn record_polls(&mut self, polls: &Vec<usize>)
        requires
            polls@.len() > 0,
        ensures
            final(self).poll == polls_sum(polls@) / polls@.len() as int,
            final(self).name == old(self).name,
            final(self).count == old(self).count,
            final(self).steps == old(self).steps,
            final(self).bytes == old(self).bytes,
            final(self).n == old(self).n,
            final(self).mem_track == old(self).mem_track,
    {
        let ghost s = polls@;
        let len = polls.len();
        proof {
            lemma_polls_sum_upper(s);
            assert(s.len() * (usize::MAX as int) <= u128::MAX) by (nonlinear_arith)
                requires
                    s.len() <= usize::MAX as int,
                    usize::MAX as int <= 0xffff_ffff_ffff_ffff as int,
            ;
            assert(s.subrange(0, 0) =~= Seq::<usize>::empty());
        }

        let mut sum: u128 = 0;
        let mut i: usize = 0;
        while i < len
            invariant
                i <= len,
                len == s.len(),
                s == polls@,
                polls_sum(s) <= u128::MAX,
                sum == polls_sum(s.subrange(0, i as int)),
            decreases len - i,
        {
            proof {
                lemma_polls_prefix_snoc(s, i as int);
                lemma_polls_prefix_le(s, i as int + 1);
            }
            sum = sum + (polls[i] as u128);
            i = i + 1;
        }

        proof {
            assert(s.subrange(0, len as int) =~= s);
            lemma_polls_sum_upper(s);
            lemma_div_is_ordered(polls_sum(s), s.len() * (usize::MAX as int), s.len() as int);
            lemma_div_multiples_vanish(usize::MAX as int, s.len() as int);
        }
        let avg: u128 = sum / (len as u128);
        self.poll = avg as usize;
    }

    /// Finalize the run: reduce the collected samples to their statistics.
    /// At least one sample must have been collected, which holds whenever a
    /// run was started with `count >= 1`.
    pub fn finish(&self) -> (r: Stats)
        requires
            self.steps@.len() > 0,
            times_sum(self.steps@) <= u128::MAX,
        ensures
            r == stats_of(self.steps@),
    {
        Stats::from_steps(&self.steps)
    }

    /// The render-ready figures of the run, as a report formatter consumes
    /// them: per-channel mean and spread (maximum minus minimum), the
    /// configuration, and the average resumption count only when one greater
    /// than zero was recorded — on the synchronous path none ever is.
    pub fn report(&self) -> (r: Report)
        requires
            self.steps@.len() > 0,
            times_sum(self.steps@) <= u128::MAX,
        ensures
            r.times_average == stats_of(self.steps@).times_average,
            r.times_spread == stats_of(self.steps@).times_max - stats_of(self.steps@).times_min,
            r.mem_average == stats_of(self.steps@).mem_average,
            r.mem_spread == stats_of(self.steps@).mem_max - stats_of(self.steps@).mem_min,
            r.count == self.count,
            r.n == self.n,
            r.avg_polls == (if self.poll > 0 {
                Some(self.poll)
            } else {
                None::<usize>
            }),
    {
        let stats = self.finish();
        proof {
            lemma_min_le_max(self.steps@);
        }
        let avg_polls = if self.poll > 0 {
            Some(self.poll)
        } else {
            None
        };
        Report {
            times_average: stats.times_average,
            times_spread: stats.times_max - stats.times_min,
            mem_average: stats.mem_average,
            mem_spread: stats.mem_max - stats.mem_min,
            count: self.count,
            n: self.n,
            avg_polls,
        }
    }
}

/// What a report formatter renders: the per-channel figures and the run's
/// configuration, with the average resumption count present only when one
/// was recorded.
#[derive(Clone, Copy, PartialEq, Eq, Structural, Debug)]
pub struct Report {
    /// Mean nanoseconds per operation.
    pub times_average: u128,
    /// Maximum minus minimum nanoseconds per operation.
    pub times_spread: u128,
    /// Mean peak allocated bytes per operation.
    pub mem_average: usize,
    /// Maximum minus minimum peak allocated bytes per operation.
    pub mem_spread: usize,
    /// Requested sample count.
    pub count: usize,
    /// Calibrated repetition count.
    pub n: usize,
    /// Average resumption count, when a positive one was recorded.
    pub avg_polls: Option<usize>,
}

proof fn lemma_polls_prefix_snoc(s: Seq<usize>, i: int)
    requires
        0 <= i < s.len(),
    ensures
        s.subrange(0, i + 1).drop_last() =~= s.subrange(0, i),
        s.subrange(0, i + 1).last() == s[i],
{
}

proof fn lemma_polls_prefix_le(s: Seq<usize>, i: int)
    requires
        0 <= i <= s.len(),
    ensures
        polls_sum(s.subrange(0, i)) <= polls_sum(s),
    decreases s.len() - i,
{
    if i == s.len() {
        assert(s.subrange(0, i) =~= s);
    } else {
        lemma_polls_prefix_snoc(s, i);
        lemma_polls_prefix_le(s, i + 1);
    }
}

proof fn lemma_polls_sum_upper(s: Seq<usize>)
    ensures
        polls_sum(s) <= s.len() * usize::MAX,
    decreases s.len(),
{
    if s.len() > 0 {
        lemma_polls_sum_upper(s.drop_last());
        assert((s.len() - 1) * usize::MAX + usize::MAX == s.len() * usize::MAX)
            by (nonlinear_arith);
    }
}

} // verus!
