use vstd::prelude::*;
use std::time::Duration;
use crate::MetricType;
use crate::context::Context;
use crate::errors::ObservabilityError;
use crate::labels::LabelMap;
use crate::metric::{apply_increments, Counter, Histogram, Metric, MetricIdentity};
use crate::registry::{CounterHandle, GaugeHandle, HistogramHandle, MetricsRegistry};
use crate::timer::HistogramTimer;

verus! {

/// A counter that accepts every increment and stays at zero.
pub struct NoopCounter {
    name: String,
    description: String,
    labels: LabelMap,
}

impl Metric for NoopCounter {
    closed spec fn id(&self) -> MetricIdentity {
        MetricIdentity {
            name: self.name@,
            description: self.description@,
            metric_type: MetricType::Counter,
            labels: self.labels@,
        }
    }

    fn name(&self) -> (r: &str) {
        self.name.as_str()
    }

    fn description(&self) -> (r: &str) {
        self.description.as_str()
    }

    fn metric_type(&self) -> (r: MetricType) {
        MetricType::Counter
    }

    fn labels(&self) -> (r: &LabelMap) {
        &self.labels
    }
}

impl Clone for NoopCounter {
    /// A clone is the same metric: it has the same identity.
    fn clone(&self) -> (r: Self)
        ensures
            r.id() == self.id(),
    {
        NoopCounter {
            name: self.name.clone(),
            description: self.description.clone(),
            labels: self.labels.clone(),
        }
    }
}

impl Counter for NoopCounter {
    /// The value a discarding counter reports: always zero.
    open spec fn spec_value(&self) -> u64 {
        0u64
    }

    /// An increment leaves a discarding counter unchanged.
    open spec fn incremented(&self, amount: u64) -> Self {
        *self
    }

    fn increment(&mut self, _amount: u64) -> (r: Result<(), ObservabilityError>) {
        Ok(())
    }

    fn value(&self) -> (r: u64) {
        0
    }
}

/// Law: no sequence of increments changes a discarding counter at all; in
/// particular its value stays at the counter's zero.
pub proof fn lemma_noop_counter_unchanged(c: NoopCounter, amounts: Seq<u64>)
    ensures
        apply_increments(c, amounts) == c,
        apply_increments(c, amounts).spec_value() == 0,
    decreases amounts.len(),
{
    if amounts.len() > 0 {
        lemma_noop_counter_unchanged(c, amounts.drop_last());
    }
}

/// A gauge that accepts every mutation and stays at zero. Values are passed
/// as the raw bit pattern of the caller's floating-point number; this
/// backend never interprets them.
pub struct NoopGauge {
    name: String,
    description: String,
    labels: LabelMap,
}

impl Metric for NoopGauge {
    closed spec fn id(&self) -> MetricIdentity {
        MetricIdentity {
            name: self.name@,
            description: self.description@,
            metric_type: MetricType::Gauge,
            labels: self.labels@,
        }
    }

    fn name(&self) -> (r: &str) {
        self.name.as_str()
    }

    fn description(&self) -> (r: &str) {
        self.description.as_str()
    }

    fn metric_type(&self) -> (r: MetricType) {
        MetricType::Gauge
    }

    fn labels(&self) -> (r: &LabelMap) {
        &self.labels
    }
}

impl Clone for NoopGauge {
    /// A clone is the same metric: it has the same identity.
    fn clone(&self) -> (r: Self)
        ensures
            r.id() == self.id(),
    {
        NoopGauge {
            name: self.name.clone(),
            description: self.description.clone(),
            labels: self.labels.clone(),
        }
    }
}

impl NoopGauge {
    /// Accept and discard a new value.
    pub fn set(&self, _value_bits: u64) -> (r: Result<(), ObservabilityError>)
        ensures
            r is Ok,
    {
        Ok(())
    }

    /// Accept and discard an increment.
    pub fn increment(&self, _value_bits: u64) -> (r: Result<(), ObservabilityError>)
        ensures
            r is Ok,
    {
        Ok(())
    }

    /// Accept and discard a decrement.
    pub fn decrement(&self, _value_bits: u64) -> (r: Result<(), ObservabilityError>)
        ensures
            r is Ok,
    {
        Ok(())
    }

    /// The value a discarding gauge reports: always the bit pattern of
    /// zero, whatever was set, added or subtracted before.
    pub fn value(&self) -> (r: u64)
        ensures
            r == 0u64,
    {
        0
    }
}

/// A histogram that accepts and discards every observation.
pub struct NoopHistogram {
    name: String,
    description: String,
    labels: LabelMap,
}

impl Clone for NoopHistogram {
    /// A clone is the same metric: it has the same identity.
    fn clone(&self) -> (r: Self)
        ensures
            r.id() == self.id(),
    {
        NoopHistogram {
            name: self.name.clone(),
            description: self.description.clone(),
            labels: self.labels.clone(),
        }
    }
}

impl Metric for NoopHistogram {
    closed spec fn id(&self) -> MetricIdentity {
        MetricIdentity {
            name: self.name@,
            description: self.description@,
            metric_type: MetricType::Histogram,
            labels: self.labels@,
        }
    }

    fn name(&self) -> (r: &str) {
        self.name.as_str()
    }

    fn description(&self) -> (r: &str) {
        self.description.as_str()
    }

    fn metric_type(&self) -> (r: MetricType) {
        MetricType::Histogram
    }

    fn labels(&self) -> (r: &LabelMap) {
        &self.labels
    }
}

impl Histogram for NoopHistogram {
    fn record(&self, _value: Duration) -> (r: Result<(), ObservabilityError>) {
        Ok(())
    }

    fn start_timer(&self) -> (t: HistogramTimer) {
        HistogramTimer::new(HistogramHandle::Noop(self.clone()))
    }
}

/// The registry of the discarding backend: every creation succeeds, every
/// handle discards its updates, and reading any handle gives the kind's
/// zero.
pub struct NoopMetricsRegistry {
    name: String,
}

impl NoopMetricsRegistry {
    /// A new discarding registry.
    pub fn new() -> (r: Self)
        ensures
            r.spec_name() == "noop_registry"@,
    {
        NoopMetricsRegistry { name: String::from_str("noop_registry") }
    }
}

impl MetricsRegistry for NoopMetricsRegistry {
    closed spec fn spec_name(&self) -> Seq<char> {
        self.name@
    }

    /// The handle's identity is exactly what the caller asked for: the
    /// discarding backend merges no default labels.
    fn counter(&self, _ctx: &Context, name: &str, description: &str, labels: LabelMap) -> (r:
        Result<CounterHandle, ObservabilityError>)
        ensures
            (r matches Ok(h) && h matches CounterHandle::Noop(_) && h.id() == (MetricIdentity {
                name: name@,
                description: description@,
                metric_type: MetricType::Counter,
                labels: labels@,
            })),
    {
        Ok(
            CounterHandle::Noop(
                NoopCounter {
                    name: String::from_str(name),
                    description: String::from_str(description),
                    labels,
                },
            ),
        )
    }

    fn gauge(&self, _ctx: &Context, name: &str, description: &str, labels: LabelMap) -> (r: Result<
        GaugeHandle,
        ObservabilityError,
    >)
        ensures
            (r matches Ok(h) && h matches GaugeHandle::Noop(_) && h.id() == (MetricIdentity {
                name: name@,
                description: description@,
                metric_type: MetricType::Gauge,
                labels: labels@,
            })),
    {
        Ok(
            GaugeHandle::Noop(
                NoopGauge {
                    name: String::from_str(name),
                    description: String::from_str(description),
                    labels,
                },
            ),
        )
    }

    fn histogram(&self, _ctx: &Context, name: &str, description: &str, labels: LabelMap) -> (r:
        Result<HistogramHandle, ObservabilityError>)
        ensures
            (r matches Ok(h) && h matches HistogramHandle::Noop(_) && h.id() == (MetricIdentity {
                name: name@,
                description: description@,
                metric_type: MetricType::Histogram,
                labels: labels@,
            })),
    {
        Ok(
            HistogramHandle::Noop(
                NoopHistogram {
                    name: String::from_str(name),
                    description: String::from_str(description),
                    labels,
                },
            ),
        )
    }

    fn shutdown(&self) -> (r: Result<(), ObservabilityError>) {
        Ok(())
    }

    fn name(&self) -> (r: &str) {
        self.name.as_str()
    }
}

} // verus!
