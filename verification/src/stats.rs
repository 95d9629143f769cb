//! Samples and their aggregation.
//!
//! A `Step` is one completed measurement window: the per-operation time and
//! peak-memory cost averaged over one batch. `Stats` reduces a non-empty
//! sequence of steps to the arithmetic mean, minimum and maximum of each
//! channel, each channel taken independently.

use vstd::prelude::*;

verus! {

use vstd::arithmetic::div_mod::{lemma_div_is_ordered, lemma_div_multiples_vanish};

/// One completed measurement window: the averaged per-operation cost of one
/// batch. Immutable once produced.
#[derive(Clone, Copy, PartialEq, Eq, Structural, Debug)]
pub struct Step {
    /// Nanoseconds per operation within the batch.
    pub time: u128,
    /// Peak allocated bytes per operation within the batch.
    pub mem: usize,
}

/// Average, minimum and maximum of each measurement channel over a run.
/// Derived on demand, a pure function of the sample sequence.
#[derive(Clone, Copy, PartialEq, Eq, Structural, Debug)]
pub struct Stats {
    pub times_average: u128,
    pub times_min: u128,
    pub times_max: u128,
    pub mem_average: usize,
    pub mem_min: usize,
    pub mem_max: usize,
}

/// Total of the time channel over a sample sequence.
pub open spec fn times_sum(s: Seq<Step>) -> int
    decreases s.len(),
{
    if s.len() == 0 {
        0
    } else {
        times_sum(s.drop_last()) + s.last().time
    }
}

/// Total of the memory channel over a sample sequence.
pub open spec fn mem_sum(s: Seq<Step>) -> int
    decreases s.len(),
{
    if s.len() == 0 {
        0
    } else {
        mem_sum(s.drop_last()) + s.last().mem
    }
}

/// Least value of the time channel over a non-empty sample sequence.
pub open spec fn times_min_of(s: Seq<Step>) -> u128
    recommends
        s.len() > 0,
    decreases s.len(),
{
    if s.len() <= 1 {
        s[0].time
    } else {
        let rest = times_min_of(s.drop_last());
        if s.last().time < rest {
            s.last().time
        } else {
            rest
        }
    }
}

/// Greatest value of the time channel over a non-empty sample sequence.
pub open spec fn times_max_of(s: Seq<Step>) -> u128
    recommends
        s.len() > 0,
    decreases s.len(),
{
    if s.len() <= 1 {
        s[0].time
    } else {
        let rest = times_max_of(s.drop_last());
        if s.last().time > rest {
            s.last().time
        } else {
            rest
        }
    }
}

/// Least value of the memory channel over a non-empty sample sequence.
pub open spec fn mem_min_of(s: Seq<Step>) -> usize
    recommends
        s.len() > 0,
    decreases s.len(),
{
    if s.len() <= 1 {
        s[0].mem
    } else {
        let rest = mem_min_of(s.drop_last());
        if s.last().mem < rest {
            s.last().mem
        } else {
            rest
        }
    }
}

/// Greatest value of the memory channel over a non-empty sample sequence.
pub open spec fn mem_max_of(s: Seq<Step>) -> usize
    recommends
        s.len() > 0,
    decreases s.len(),
{
    if s.len() <= 1 {
        s[0].mem
    } else {
        let rest = mem_max_of(s.drop_last());
        if s.last().mem > rest {
            s.last().mem
        } else {
            rest
        }
    }
}

/// The statistics of a non-empty sample sequence: integer-division means and
/// per-channel extrema, each channel reduced independently.
pub open spec fn stats_of(s: Seq<Step>) -> Stats
    recommends
        s.len() > 0,
        times_sum(s) <= u128::MAX,
{
    Stats {
        times_average: (times_sum(s) / s.len() as int) as u128,
        times_min: times_min_of(s),
        times_max: times_max_of(s),
        mem_average: (mem_sum(s) / s.len() as int) as usize,
        mem_min: mem_min_of(s),
        mem_max: mem_max_of(s),
    }
}

proof fn lemma_prefix_snoc(s: Seq<Step>, i: int)
    requires
        0 <= i < s.len(),
    ensures
        s.subrange(0, i + 1).drop_last() =~= s.subrange(0, i),
        s.subrange(0, i + 1).last() == s[i],
{
}

proof fn lemma_prefix_sums_le(s: Seq<Step>, i: int)
    requires
        0 <= i <= s.len(),
    ensures
        times_sum(s.subrange(0, i)) <= times_sum(s),
        mem_sum(s.subrange(0, i)) <= mem_sum(s),
    decreases s.len() - i,
{
    if i == s.len() {
        assert(s.subrange(0, i) =~= s);
    } else {
        lemma_prefix_snoc(s, i);
        lemma_prefix_sums_le(s, i + 1);
    }
}

proof fn lemma_mem_sum_upper(s: Seq<Step>)
    ensures
        mem_sum(s) <= s.len() * usize::MAX,
    decreases s.len(),
{
    if s.len() > 0 {
        lemma_mem_sum_upper(s.drop_last());
        assert((s.len() - 1) * usize::MAX + usize::MAX == s.len() * usize::MAX)
            by (nonlinear_arith);
    }
}

/// In a non-empty sample sequence the least value of a channel never exceeds
/// the greatest, on each channel independently.
pub proof fn lemma_min_le_max(s: Seq<Step>)
    requires
        s.len() > 0,
    ensures
        times_min_of(s) <= times_max_of(s),
        mem_min_of(s) <= mem_max_of(s),
    decreases s.len(),
{
    if s.len() > 1 {
        lemma_min_le_max(s.drop_last());
    }
}

/// Aggregation is pure: reducing the same sample sequence twice yields
/// identical statistics.
pub proof fn lemma_stats_pure(a: Seq<Step>, b: Seq<Step>)
    requires
        a == b,
    ensures
        stats_of(a) == stats_of(b),
{
}

impl Stats {
    /// Reduce a non-empty sample sequence to its statistics: the arithmetic
    /// mean of each channel under integer division, and the per-channel
    /// minimum and maximum, each channel taken independently.
    pub fn from_steps(steps: &Vec<Step>) -> (r: Stats)
        requires
            steps@.len() > 0,
            times_sum(steps@) <= u128::MAX,
        ensures
            r == stats_of(steps@),
    {
        let ghost s = steps@;
        let len = steps.len();
        let first = steps[0];
        let mut tsum: u128 = first.time;
        let mut msum: u128 = first.mem as u128;
        let mut tmin: u128 = first.time;
        let mut tmax: u128 = first.time;
        let mut mmin: usize = first.mem;
        let mut mmax: usize = first.mem;

        proof {
            assert(s.subrange(0, 1).drop_last() =~= Seq::<Step>::empty());
            assert(s.subrange(0, 1).last() == s[0]);
            assert(times_sum(Seq::<Step>::empty()) == 0);
            assert(mem_sum(Seq::<Step>::empty()) == 0);
            assert(times_sum(s.subrange(0, 1)) == s[0].time);
            assert(mem_sum(s.subrange(0, 1)) == s[0].mem);
            lemma_mem_sum_upper(s);
            assert(s.len() * (usize::MAX as int) <= u128::MAX) by (nonlinear_arith)
                requires
                    s.len() <= usize::MAX as int,
                    usize::MAX as int <= 0xffff_ffff_ffff_ffff as int,
            ;
        }

        let mut i: usize = 1;
        while i < len
            invariant
                1 <= i <= len,
                len == s.len(),
                s == steps@,
                times_sum(s) <= u128::MAX,
                mem_sum(s) <= u128::MAX,
                tsum == times_sum(s.subrange(0, i as int)),
                msum == mem_sum(s.subrange(0, i as int)),
                tmin == times_min_of(s.subrange(0, i as int)),
                tmax == times_max_of(s.subrange(0, i as int)),
                mmin == mem_min_of(s.subrange(0, i as int)),
                mmax == mem_max_of(s.subrange(0, i as int)),
            decreases len - i,
        {
            let st = steps[i];
            proof {
                lemma_prefix_snoc(s, i as int);
                lemma_prefix_sums_le(s, i as int + 1);
            }
            tsum = tsum + st.time;
            msum = msum + st.mem as u128;
            if st.time < tmin {
                tmin = st.time;
            }
            if st.time > tmax {
                tmax = st.time;
            }
            if st.mem < mmin {
                mmin = st.mem;
            }
            if st.mem > mmax {
                mmax = st.mem;
            }
            i = i + 1;
        }

        proof {
            assert(s.subrange(0, len as int) =~= s);
            lemma_mem_sum_upper(s);
            lemma_div_is_ordered(mem_sum(s), s.len() * (usize::MAX as int), s.len() as int);
            lemma_div_multiples_vanish(usize::MAX as int, s.len() as int);
        }
        let tavg: u128 = tsum / (len as u128);
        let mq: u128 = msum / (len as u128);
        let mavg: usize = mq as usize;
        Stats {
            times_average: tavg,
            times_min: tmin,
            times_max: tmax,
            mem_average: mavg,
            mem_min: mmin,
            mem_max: mmax,
        }
    }
}

} // verus!
