//! Wall-clock access and the async timing wrapper's bookkeeping.
//!
//! The clock itself is the monotonic `std::time::Instant`; what it returns
//! depends on when it is called, so nothing is promised of its readings. The
//! `PollTimer` records, from those readings, what the async timing wrapper
//! observes of one wrapped operation: a start instant captured lazily on the
//! very first resumption, a count of resumption attempts, and the elapsed
//! time once the operation completes.

use vstd::prelude::*;

verus! {

/// `std::time::Instant`: an opaque reading of the monotonic clock.
#[verifier::external_type_specification]
#[verifier::external_body]
pub struct ExInstant(std::time::Instant);

/// Relies on `std::time::Instant::now`: a reading of the monotonic clock.
/// The value depends on when the call runs, so nothing is promised of it.
pub assume_specification[ std::time::Instant::now ]() -> std::time::Instant;

/// Relies on `std::time::Instant::elapsed`: the time since `t` was taken, as
/// a `Duration`. The value depends on when the call runs, so nothing is
/// promised of it.
pub assume_specification[ std::time::Instant::elapsed ](t: &std::time::Instant) -> core::time::Duration;

/// Relies on `core::time::Duration::as_nanos`: the whole duration in
/// nanoseconds. The duration itself is opaque here, so nothing more is
/// stated of the value.
pub assume_specification[ core::time::Duration::as_nanos ](d: &core::time::Duration) -> u128;

/// The observations the async timing wrapper keeps for one wrapped
/// operation, over clock readings given in nanoseconds.
#[derive(Clone, Copy, PartialEq, Eq, Structural, Debug)]
pub struct PollTimer {
    /// Whether a first resumption has been seen.
    pub started: bool,
    /// Clock reading at the first resumption; meaningful once `started`.
    pub start_ns: u128,
    /// Number of resumption attempts seen so far.
    pub polls: usize,
}

/// A timer as created immediately before the first resumption attempt.
pub open spec fn timer_new() -> PollTimer {
    PollTimer { started: false, start_ns: 0, polls: 0 }
}

/// The timer after one resumption attempt at clock reading `now_ns`: the
/// count grows by one, and the start is captured on the very first attempt
/// only.
pub open spec fn timer_resumed(t: PollTimer, now_ns: u128) -> PollTimer
    recommends
        t.polls < usize::MAX,
{
    PollTimer {
        started: true,
        start_ns: if t.started { t.start_ns } else { now_ns },
        polls: (t.polls + 1) as usize,
    }
}

/// The timer after the resumption attempts at the clock readings in `times`,
/// in order, starting from `t`.
pub open spec fn timer_after_resumptions(t: PollTimer, times: Seq<u128>) -> PollTimer
    decreases times.len(),
{
    if times.len() == 0 {
        t
    } else {
        timer_resumed(timer_after_resumptions(t, times.drop_last()), times.last())
    }
}

impl PollTimer {
    /// A fresh timer: no resumption seen yet.
    pub fn new() -> (r: PollTimer)
        ensures
            r == timer_new(),
    {
        PollTimer { started: false, start_ns: 0, polls: 0 }
    }

    /// Record one resumption attempt at clock reading `now_ns`, whether or
    /// not it completes the operation.
    pub fn on_resume(&mut self, now_ns: u128)
        requires
            old(self).polls < usize::MAX,
        ensures
            *final(self) == timer_resumed(*old(self), now_ns),
    {
        if !self.started {
            self.started = true;
            self.start_ns = now_ns;
        }
        self.polls = self.polls + 1;
    }

    /// The elapsed time from the first resumption to the clock reading
    /// `now_ns` at which the operation completed.
    pub fn elapsed_ns(&self, now_ns: u128) -> (r: u128)
        requires
            self.started,
            self.start_ns <= now_ns,
        ensures
            r == now_ns - self.start_ns,
    {
        now_ns - self.start_ns
    }
}

/// An operation that completes on its very first resumption is observed with
/// a resumption count of exactly one, and its elapsed time spans exactly that
/// single resumption: it runs from that resumption's clock reading.
pub proof fn lemma_first_resumption(now_ns: u128)
    ensures
        timer_resumed(timer_new(), now_ns).polls == 1,
        timer_resumed(timer_new(), now_ns).start_ns == now_ns,
        timer_resumed(timer_new(), now_ns).started,
{
}

/// An operation that needs `k` resumption attempts before completing is
/// observed with a resumption count of exactly `k`, and its start is the
/// clock reading of the first attempt.
pub proof fn lemma_resumption_count(times: Seq<u128>)
    requires
        times.len() <= usize::MAX,
    ensures
        timer_after_resumptions(timer_new(), times).polls == times.len(),
        times.len() > 0 ==> timer_after_resumptions(timer_new(), times).started,
        times.len() > 0 ==> timer_after_resumptions(timer_new(), times).start_ns == times[0],
    decreases times.len(),
{
    if times.len() > 0 {
        lemma_resumption_count(times.drop_last());
        if times.len() > 1 {
            assert(times.drop_last()[0] == times[0]);
        }
    }
}

} // verus!
