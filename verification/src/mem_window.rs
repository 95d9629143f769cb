//! The Memory Window: a reset-then-read protocol over a pair of counters,
//! "currently allocated bytes" and "peak allocated bytes".
//!
//! An allocation tracker maintains such a pair process-wide; this module gives
//! the pair's exact transition semantics, so that a tracker implementation can
//! delegate its bookkeeping here and so that the reset/read protocol can be
//! reasoned about: between a reset and a read, `peak >= current` always holds,
//! and the peak only decreases via a reset.

use vstd::prelude::*;

verus! {

/// The two counters of one measurement window.
#[derive(Clone, Copy, PartialEq, Eq, Structural, Debug)]
pub struct MemWindow {
    /// Bytes currently allocated since the last reset.
    pub current: usize,
    /// Maximum value `current` has reached since the last reset.
    pub peak: usize,
}

/// Well-formedness: the peak reading never falls below the current reading.
pub open spec fn window_wf(w: MemWindow) -> bool {
    w.current <= w.peak
}

/// The window after a reset: both counters atomically zeroed.
pub open spec fn window_after_reset(w: MemWindow) -> MemWindow {
    MemWindow { current: 0, peak: 0 }
}

/// The window after an allocation of `bytes`: the current counter grows and
/// the peak is the maximum value of `current` seen so far.
pub open spec fn window_after_alloc(w: MemWindow, bytes: usize) -> MemWindow
    recommends
        w.current + bytes <= usize::MAX,
{
    let c = (w.current + bytes) as usize;
    MemWindow { current: c, peak: if c > w.peak { c } else { w.peak } }
}

/// The window after a deallocation of `bytes`: the current counter shrinks
/// (never below zero) and the peak is untouched.
pub open spec fn window_after_dealloc(w: MemWindow, bytes: usize) -> MemWindow {
    let c: usize = if bytes <= w.current { (w.current - bytes) as usize } else { 0 };
    MemWindow { current: c, peak: w.peak }
}

impl MemWindow {
    /// A fresh window with both counters at zero.
    pub fn new() -> (r: MemWindow)
        ensures
            r.current == 0,
            r.peak == 0,
            window_wf(r),
    {
        MemWindow { current: 0, peak: 0 }
    }

    /// Atomically zero both counters.
    pub fn reset(&mut self)
        ensures
            *final(self) == window_after_reset(*old(self)),
            window_wf(*final(self)),
    {
        self.current = 0;
        self.peak = 0;
    }

    /// Read the peak-allocated counter.
    pub fn read_peak(&self) -> (r: usize)
        ensures
            r == self.peak,
    {
        self.peak
    }

    /// Account for an allocation of `bytes`.
    pub fn record_alloc(&mut self, bytes: usize)
        requires
            old(self).current + bytes <= usize::MAX,
        ensures
            *final(self) == window_after_alloc(*old(self), bytes),
            window_wf(*final(self)),
    {
        self.current = self.current + bytes;
        if self.current > self.peak {
            self.peak = self.current;
        }
    }

    /// Account for a deallocation of `bytes`; the current counter saturates
    /// at zero so that a deallocation crossing a reset cannot underflow.
    pub fn record_dealloc(&mut self, bytes: usize)
        ensures
            *final(self) == window_after_dealloc(*old(self), bytes),
            window_wf(*old(self)) ==> window_wf(*final(self)),
    {
        if bytes <= self.current {
            self.current = self.current - bytes;
        } else {
            self.current = 0;
        }
    }
}

/// Reset-read round trip: immediately after a reset, the peak reading is zero.
pub proof fn lemma_reset_then_read(w: MemWindow)
    ensures
        window_after_reset(w).peak == 0,
{
}

/// After an allocation of `bytes` with no intervening reset, the peak reading
/// is at least `bytes`.
pub proof fn lemma_alloc_raises_peak(w: MemWindow, bytes: usize)
    requires
        w.current + bytes <= usize::MAX,
    ensures
        window_after_alloc(w, bytes).peak >= bytes,
{
}

/// The peak only decreases via a reset: an allocation never lowers it and a
/// deallocation leaves it untouched.
pub proof fn lemma_peak_decreases_only_by_reset(w: MemWindow, bytes: usize)
    requires
        w.current + bytes <= usize::MAX,
    ensures
        window_after_alloc(w, bytes).peak >= w.peak,
        window_after_dealloc(w, bytes).peak == w.peak,
{
}

} // verus!
