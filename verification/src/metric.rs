use vstd::prelude::*;
use std::time::Duration;
use crate::MetricType;
use crate::errors::ObservabilityError;
use crate::labels::LabelMap;
use crate::registry::HistogramHandle;
use crate::timer::HistogramTimer;

verus! {

/// The identity of a metric, as mathematics: its name, description, kind,
/// and labels. Identity is fixed when the metric is created.
pub struct MetricIdentity {
    pub name: Seq<char>,
    pub description: Seq<char>,
    pub metric_type: MetricType,
    pub labels: Map<Seq<char>, Seq<char>>,
}

/// What every metric exposes, whatever its kind and backend.
pub trait Metric {
    /// The metric's identity.
    spec fn id(&self) -> MetricIdentity;

    /// The metric's name.
    fn name(&self) -> (r: &str)
        ensures
            r@ == self.id().name,
    ;

    /// The metric's description.
    fn description(&self) -> (r: &str)
        ensures
            r@ == self.id().description,
    ;

    /// The metric's kind.
    fn metric_type(&self) -> (r: MetricType)
        ensures
            r == self.id().metric_type,
    ;

    /// The metric's labels.
    fn labels(&self) -> (r: &LabelMap)
        ensures
            r@ == self.id().labels,
    ;
}

/// A counter: a value that only ever grows.
pub trait Counter: Metric + Sized {
    /// The counter's current value.
    spec fn spec_value(&self) -> u64;

    /// The counter after one increment by `amount`.
    spec fn incremented(&self, amount: u64) -> Self;

    /// Add `amount` to the counter. The identity never changes.
    fn increment(&mut self, amount: u64) -> (r: Result<(), ObservabilityError>)
        ensures
            *final(self) == old(self).incremented(amount),
            final(self).id() == old(self).id(),
            r is Ok,
    ;

    /// The counter's current value.
    fn value(&self) -> (r: u64)
        ensures
            r == self.spec_value(),
    ;
}

/// A histogram: a distribution of observed durations.
pub trait Histogram: Metric + Sized {
    /// Record one observation. Never fails in the backends of this crate.
    fn record(&self, value: Duration) -> (r: Result<(), ObservabilityError>)
        ensures
            r is Ok,
    ;

    /// Start timing; the returned timer records the elapsed time against
    /// this histogram exactly once, on `stop` or when it is discarded.
    fn start_timer(&self) -> (t: HistogramTimer)
        ensures
            (t.target() matches Some(h) && h.id() == self.id()),
    ;
}

/// The counter after a whole sequence of increments, applied in order.
pub open spec fn apply_increments<CT: Counter>(c: CT, amounts: Seq<u64>) -> CT
    decreases amounts.len(),
{
    if amounts.len() == 0 {
        c
    } else {
        apply_increments(c, amounts.drop_last()).incremented(amounts.last())
    }
}

/// The sum of a sequence of increment amounts, as an unbounded integer.
pub open spec fn sum_of(amounts: Seq<u64>) -> int
    decreases amounts.len(),
{
    if amounts.len() == 0 {
        0
    } else {
        sum_of(amounts.drop_last()) + amounts.last()
    }
}

} // verus!
