use vstd::prelude::*;
use std::time::Duration;
use crate::MetricType;
use crate::context::Context;
use crate::errors::ObservabilityError;
use crate::labels::{merged_labels, LabelMap};
use crate::metric::{Counter, Histogram, Metric, MetricIdentity};
use crate::noop::{NoopCounter, NoopGauge, NoopHistogram, NoopMetricsRegistry};
use crate::prometheus::{
    PrometheusCounter, PrometheusGauge, PrometheusHistogram, PrometheusMetricsRegistry,
};
use crate::timer::HistogramTimer;

verus! {

/// A counter of either backend; the factory's counterpart of a counter
/// trait object.
pub enum CounterHandle {
    Prometheus(PrometheusCounter),
    Noop(NoopCounter),
}

/// A gauge of either backend. The real gauge's mutations work on
/// floating-point numbers, which this verified core does not touch: an
/// embedder takes the `Prometheus` variant apart and drives it; the
/// discarding variant is complete here.
pub enum GaugeHandle {
    Prometheus(PrometheusGauge),
    Noop(NoopGauge),
}

/// A histogram of either backend.
pub enum HistogramHandle {
    Prometheus(PrometheusHistogram),
    Noop(NoopHistogram),
}

impl Metric for CounterHandle {
    open spec fn id(&self) -> MetricIdentity {
        match self {
            CounterHandle::Prometheus(c) => c.id(),
            CounterHandle::Noop(c) => c.id(),
        }
    }

    fn name(&self) -> (r: &str) {
        match self {
            CounterHandle::Prometheus(c) => c.name(),
            CounterHandle::Noop(c) => c.name(),
        }
    }

    fn description(&self) -> (r: &str) {
        match self {
            CounterHandle::Prometheus(c) => c.description(),
            CounterHandle::Noop(c) => c.description(),
        }
    }

    fn metric_type(&self) -> (r: MetricType) {
        match self {
            CounterHandle::Prometheus(c) => c.metric_type(),
            CounterHandle::Noop(c) => c.metric_type(),
        }
    }

    fn labels(&self) -> (r: &LabelMap) {
        match self {
            CounterHandle::Prometheus(c) => c.labels(),
            CounterHandle::Noop(c) => c.labels(),
        }
    }
}

impl Counter for CounterHandle {
    open spec fn spec_value(&self) -> u64 {
        match self {
            CounterHandle::Prometheus(c) => c.spec_value(),
            CounterHandle::Noop(c) => c.spec_value(),
        }
    }

    open spec fn incremented(&self, amount: u64) -> Self {
        match self {
            CounterHandle::Prometheus(c) => CounterHandle::Prometheus(c.incremented(amount)),
            CounterHandle::Noop(c) => CounterHandle::Noop(c.incremented(amount)),
        }
    }

    fn increment(&mut self, amount: u64) -> (r: Result<(), ObservabilityError>)
        ensures
            (old(self) matches CounterHandle::Prometheus(_) ==> final(self).spec_value() == old(
                self,
            ).spec_value().wrapping_add(amount)),
            (old(self) matches CounterHandle::Noop(_) ==> *final(self) == *old(self)),
    {
        match self {
            CounterHandle::Prometheus(c) => c.increment(amount),
            CounterHandle::Noop(c) => c.increment(amount),
        }
    }

    fn value(&self) -> (r: u64) {
        match self {
            CounterHandle::Prometheus(c) => c.value(),
            CounterHandle::Noop(c) => c.value(),
        }
    }
}

impl Metric for GaugeHandle {
    open spec fn id(&self) -> MetricIdentity {
        match self {
            GaugeHandle::Prometheus(g) => g.id(),
            GaugeHandle::Noop(g) => g.id(),
        }
    }

    fn name(&self) -> (r: &str) {
        match self {
            GaugeHandle::Prometheus(g) => g.name(),
            GaugeHandle::Noop(g) => g.name(),
        }
    }

    fn description(&self) -> (r: &str) {
        match self {
            GaugeHandle::Prometheus(g) => g.description(),
            GaugeHandle::Noop(g) => g.description(),
        }
    }

    fn metric_type(&self) -> (r: MetricType) {
        match self {
            GaugeHandle::Prometheus(g) => g.metric_type(),
            GaugeHandle::Noop(g) => g.metric_type(),
        }
    }

    fn labels(&self) -> (r: &LabelMap) {
        match self {
            GaugeHandle::Prometheus(g) => g.labels(),
            GaugeHandle::Noop(g) => g.labels(),
        }
    }
}

impl Metric for HistogramHandle {
    open spec fn id(&self) -> MetricIdentity {
        match self {
            HistogramHandle::Prometheus(h) => h.id(),
            HistogramHandle::Noop(h) => h.id(),
        }
    }

    fn name(&self) -> (r: &str) {
        match self {
            HistogramHandle::Prometheus(h) => h.name(),
            HistogramHandle::Noop(h) => h.name(),
        }
    }

    fn description(&self) -> (r: &str) {
        match self {
            HistogramHandle::Prometheus(h) => h.description(),
            HistogramHandle::Noop(h) => h.description(),
        }
    }

    fn metric_type(&self) -> (r: MetricType) {
        match self {
            HistogramHandle::Prometheus(h) => h.metric_type(),
            HistogramHandle::Noop(h) => h.metric_type(),
        }
    }

    fn labels(&self) -> (r: &LabelMap) {
        match self {
            HistogramHandle::Prometheus(h) => h.labels(),
            HistogramHandle::Noop(h) => h.labels(),
        }
    }
}

impl Clone for HistogramHandle {
    /// A clone is the same metric: it has the same identity.
    fn clone(&self) -> (r: Self)
        ensures
            r.id() == self.id(),
    {
        match self {
            HistogramHandle::Prometheus(h) => HistogramHandle::Prometheus(h.clone()),
            HistogramHandle::Noop(h) => HistogramHandle::Noop(h.clone()),
        }
    }
}

impl Histogram for HistogramHandle {
    fn record(&self, value: Duration) -> (r: Result<(), ObservabilityError>) {
        match self {
            HistogramHandle::Prometheus(h) => h.record(value),
            HistogramHandle::Noop(h) => h.record(value),
        }
    }

    fn start_timer(&self) -> (t: HistogramTimer) {
        HistogramTimer::new(self.clone())
    }
}

/// What every metrics registry offers: creation of the three metric kinds,
/// an idempotent shutdown, and a name. A creation that succeeds hands back
/// a fresh handle carrying the requested identity; the labels the caller
/// supplied are always kept.
pub trait MetricsRegistry {
    /// The registry's name; an implementation that does not say otherwise
    /// promises nothing about it.
    open spec fn spec_name(&self) -> Seq<char> {
        Seq::empty()
    }

    /// Create a counter with this identity.
    fn counter(&self, ctx: &Context, name: &str, description: &str, labels: LabelMap) -> (r:
        Result<CounterHandle, ObservabilityError>)
        ensures
            (r matches Ok(h) ==> h.id().name == name@ && h.id().description == description@
                && h.id().metric_type == MetricType::Counter && labels@.submap_of(h.id().labels)
                && h.spec_value() == 0),
    ;

    /// Create a gauge with this identity.
    fn gauge(&self, ctx: &Context, name: &str, description: &str, labels: LabelMap) -> (r: Result<
        GaugeHandle,
        ObservabilityError,
    >)
        ensures
            (r matches Ok(h) ==> h.id().name == name@ && h.id().description == description@
                && h.id().metric_type == MetricType::Gauge && labels@.submap_of(h.id().labels)),
    ;

    /// Create a histogram with this identity.
    fn histogram(&self, ctx: &Context, name: &str, description: &str, labels: LabelMap) -> (r:
        Result<HistogramHandle, ObservabilityError>)
        ensures
            (r matches Ok(h) ==> h.id().name == name@ && h.id().description == description@
                && h.id().metric_type == MetricType::Histogram && labels@.submap_of(
                h.id().labels,
            )),
    ;

    /// Shut the registry down; safe to call any number of times.
    fn shutdown(&self) -> (r: Result<(), ObservabilityError>)
        ensures
            r is Ok,
    ;

    /// The registry's name.
    fn name(&self) -> (r: &str)
        ensures
            r@ == self.spec_name(),
    ;
}

/// A registry of either backend, as the factory hands it out.
pub enum Registry {
    Prometheus(PrometheusMetricsRegistry),
    Noop(NoopMetricsRegistry),
}

impl MetricsRegistry for Registry {
    open spec fn spec_name(&self) -> Seq<char> {
        match self {
            Registry::Prometheus(r) => r.spec_name(),
            Registry::Noop(r) => r.spec_name(),
        }
    }

    /// Both backends always succeed; the real one merges the configured
    /// default labels and plugin id, the discarding one keeps the labels as
    /// they came.
    fn counter(&self, ctx: &Context, name: &str, description: &str, labels: LabelMap) -> (r:
        Result<CounterHandle, ObservabilityError>)
        ensures
            r is Ok,
            (self matches Registry::Noop(_) ==> (r matches Ok(h) && h matches CounterHandle::Noop(
                _,
            ) && h.id().labels == labels@)),
            (self matches Registry::Prometheus(reg) ==> (r matches Ok(h) && h
                matches CounterHandle::Prometheus(_) && h.id().labels == merged_labels(
                labels@,
                reg.spec_config().default_labels@,
                ctx@,
                reg.spec_config().include_plugin_id,
            ))),
    {
        match self {
            Registry::Prometheus(r) => r.counter(ctx, name, description, labels),
            Registry::Noop(r) => r.counter(ctx, name, description, labels),
        }
    }

    fn gauge(&self, ctx: &Context, name: &str, description: &str, labels: LabelMap) -> (r: Result<
        GaugeHandle,
        ObservabilityError,
    >)
        ensures
            r is Ok,
            (self matches Registry::Noop(_) ==> (r matches Ok(h) && h matches GaugeHandle::Noop(_)
                && h.id().labels == labels@)),
            (self matches Registry::Prometheus(reg) ==> (r matches Ok(h) && h
                matches GaugeHandle::Prometheus(_) && h.id().labels == merged_labels(
                labels@,
                reg.spec_config().default_labels@,
                ctx@,
                reg.spec_config().include_plugin_id,
            ))),
    {
        match self {
            Registry::Prometheus(r) => r.gauge(ctx, name, description, labels),
            Registry::Noop(r) => r.gauge(ctx, name, description, labels),
        }
    }

    fn histogram(&self, ctx: &Context, name: &str, description: &str, labels: LabelMap) -> (r:
        Result<HistogramHandle, ObservabilityError>)
        ensures
            r is Ok,
            (self matches Registry::Noop(_) ==> (r matches Ok(h) && h
                matches HistogramHandle::Noop(_) && h.id().labels == labels@)),
            (self matches Registry::Prometheus(reg) ==> (r matches Ok(h) && h
                matches HistogramHandle::Prometheus(_) && h.id().labels == merged_labels(
                labels@,
                reg.spec_config().default_labels@,
                ctx@,
                reg.spec_config().include_plugin_id,
            ))),
    {
        match self {
            Registry::Prometheus(r) => r.histogram(ctx, name, description, labels),
            Registry::Noop(r) => r.histogram(ctx, name, description, labels),
        }
    }

    fn shutdown(&self) -> (r: Result<(), ObservabilityError>) {
        match self {
            Registry::Prometheus(r) => r.shutdown(),
            Registry::Noop(r) => r.shutdown(),
        }
    }

    fn name(&self) -> (r: &str) {
        match self {
            Registry::Prometheus(r) => r.name(),
            Registry::Noop(r) => r.name(),
        }
    }
}

} // verus!
