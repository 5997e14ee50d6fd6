use vstd::prelude::*;
use std::time::Duration;
use std::time::Instant;
use crate::metric::Histogram;
use crate::errors::ObservabilityError;
use crate::registry::HistogramHandle;

verus! {

#[verifier::external_type_specification]
#[verifier::external_body]
pub struct ExInstant(Instant);

/// Relies on std::time::Instant::now: an opaque reading of the monotonic
/// clock, about which nothing is promised.
#[verifier::external_body]
fn instant_now() -> (r: Instant) {
    Instant::now()
}

/// Relies on std::time::Instant::elapsed: the time that passed since
/// `start` was read from the clock. The value depends on the moment of the
/// call, so nothing is promised about it.
#[verifier::external_body]
fn elapsed_since(start: &Instant) -> (r: Duration) {
    start.elapsed()
}

/// A scoped measurement against one histogram. The timer holds the
/// histogram until it records, and it records at most once: taking the
/// histogram out on first use makes every later attempt a no-op. `stop`
/// records and returns the elapsed time; an embedder that discards a timer
/// without stopping it calls `record_remaining` from its scope guard, so
/// that exactly one of the two paths records.
pub struct HistogramTimer {
    start: Instant,
    histogram: Option<HistogramHandle>,
}

impl HistogramTimer {
    /// The histogram the timer will record to, if it has not yet recorded.
    pub closed spec fn target(&self) -> Option<HistogramHandle> {
        self.histogram
    }

    /// Whether the timer still holds its histogram, that is, has not
    /// recorded yet.
    pub open spec fn is_armed(&self) -> bool {
        self.target() is Some
    }

    /// Start timing against the given histogram.
    pub fn new(histogram: HistogramHandle) -> (t: Self)
        ensures
            t.target() == Some(histogram),
    {
        HistogramTimer { start: instant_now(), histogram: Some(histogram) }
    }

    /// Stop the timer: record the elapsed time against the histogram this
    /// timer still holds, and return the elapsed time. Afterwards the timer
    /// is gone, so nothing can be recorded a second time.
    pub fn stop(self) -> (r: Result<Duration, ObservabilityError>)
        ensures
            r is Ok,
    {
        let mut this = self;
        let elapsed = elapsed_since(&this.start);
        match this.histogram.take() {
            Some(h) => {
                h.record(elapsed)?;
                Ok(elapsed)
            },
            None => Ok(elapsed),
        }
    }

    /// Record the elapsed time against the histogram the timer still holds
    /// and disarm the timer; a timer that already recorded does nothing, so
    /// over a timer's whole life at most one record happens, and a timer
    /// that reaches this call still armed records exactly once. Reports
    /// whether this call recorded.
    pub fn record_remaining(&mut self) -> (r: bool)
        ensures
            !final(self).is_armed(),
            r == old(self).is_armed(),
    {
        match self.histogram.take() {
            Some(h) => {
                let elapsed = elapsed_since(&self.start);
                let _ = h.record(elapsed);
                true
            },
            None => false,
        }
    }
}

} // verus!
