use vstd::prelude::*;
use std::time::Duration;
use crate::MetricType;
use crate::config::MetricsConfig;
use crate::context::Context;
use crate::endpoint::{valid_endpoint, validate_endpoint};
use crate::errors::ObservabilityError;
use crate::labels::{lemma_merge_precedence, merged_labels, LabelMap};
use crate::metric::{apply_increments, sum_of, Counter, Histogram, Metric, MetricIdentity};
use crate::registry::{CounterHandle, GaugeHandle, HistogramHandle, MetricsRegistry};
use crate::timer::HistogramTimer;

verus! {

/// Relies on metrics::with_recorder and metrics::Recorder::describe_counter:
/// registers the counter's description with the installed export sink.
#[verifier::external_body]
fn sink_describe_counter(name: &String, description: &String) {
    let key = metrics::KeyName::from(name.clone());
    let text = metrics::SharedString::from(description.clone());
    metrics::with_recorder(|r| r.describe_counter(key, None, text));
}

/// Relies on metrics::with_recorder and metrics::Recorder::describe_gauge:
/// registers the gauge's description with the installed export sink.
#[verifier::external_body]
fn sink_describe_gauge(name: &String, description: &String) {
    let key = metrics::KeyName::from(name.clone());
    let text = metrics::SharedString::from(description.clone());
    metrics::with_recorder(|r| r.describe_gauge(key, None, text));
}

/// Relies on metrics::with_recorder and metrics::Recorder::describe_histogram:
/// registers the histogram's description with the installed export sink.
#[verifier::external_body]
fn sink_describe_histogram(name: &String, description: &String) {
    let key = metrics::KeyName::from(name.clone());
    let text = metrics::SharedString::from(description.clone());
    metrics::with_recorder(|r| r.describe_histogram(key, None, text));
}

/// Relies on metrics::with_recorder, metrics::Recorder::register_counter and
/// metrics::Counter::increment: forwards an increment to the export sink
/// under the metric's name, with no per-call labels.
#[verifier::external_body]
fn sink_counter_increment(name: &String, amount: u64) {
    let key = metrics::Key::from_name(name.clone());
    let metadata = metrics::Metadata::new("obsmetrics", metrics::Level::INFO, None);
    metrics::with_recorder(|r| r.register_counter(&key, &metadata)).increment(amount);
}

/// Relies on metrics::with_recorder, metrics::Recorder::register_histogram
/// and metrics::Histogram::record: forwards one observation, as seconds, to
/// the export sink under the metric's name, with no per-call labels.
#[verifier::external_body]
fn sink_histogram_record(name: &String, value: Duration) {
    let key = metrics::Key::from_name(name.clone());
    let metadata = metrics::Metadata::new("obsmetrics", metrics::Level::INFO, None);
    metrics::with_recorder(|r| r.register_histogram(&key, &metadata)).record(value);
}

/// A counter of the real backend: it keeps a local value for synchronous
/// reads and forwards every increment to the export sink.
pub struct PrometheusCounter {
    name: String,
    description: String,
    labels: LabelMap,
    value: u64,
}

impl PrometheusCounter {
    /// Create a counter and register its description with the export sink.
    pub fn new(name: &str, description: &str, labels: LabelMap) -> (r: Result<
        Self,
        ObservabilityError,
    >)
        ensures
            (r matches Ok(c) && c.id() == (MetricIdentity {
                name: name@,
                description: description@,
                metric_type: MetricType::Counter,
                labels: labels@,
            }) && c.spec_value() == 0),
    {
        let counter = PrometheusCounter {
            name: String::from_str(name),
            description: String::from_str(description),
            labels,
            value: 0,
        };
        sink_describe_counter(&counter.name, &counter.description);
        Ok(counter)
    }
}

impl Clone for PrometheusCounter {
    /// A clone is the same metric and starts from the original's current
    /// value.
    fn clone(&self) -> (r: Self)
        ensures
            r.id() == self.id(),
            r.spec_value() == self.spec_value(),
    {
        PrometheusCounter {
            name: self.name.clone(),
            description: self.description.clone(),
            labels: self.labels.clone(),
            value: self.value,
        }
    }
}

impl Metric for PrometheusCounter {
    closed spec fn id(&self) -> MetricIdentity {
        MetricIdentity {
            name: self.name@,
            description: self.description@,
            metric_type: MetricType::Counter,
            labels: self.labels@,
        }
    }

    fn name(&self) -> (r: &str) {
        self.name.as_str()
    }

    fn description(&self) -> (r: &str) {
        self.description.as_str()
    }

    fn metric_type(&self) -> (r: MetricType) {
        MetricType::Counter
    }

    fn labels(&self) -> (r: &LabelMap) {
        &self.labels
    }
}

impl Counter for PrometheusCounter {
    /// The locally tracked value.
    closed spec fn spec_value(&self) -> u64 {
        self.value
    }

    /// An increment adds to the local value, wrapping on overflow as the
    /// underlying 64-bit addition does.
    closed spec fn incremented(&self, amount: u64) -> Self {
        PrometheusCounter { value: self.value.wrapping_add(amount), ..*self }
    }

    fn increment(&mut self, amount: u64) -> (r: Result<(), ObservabilityError>)
        ensures
            final(self).spec_value() == old(self).spec_value().wrapping_add(amount),
    {
        self.value = self.value.wrapping_add(amount);
        sink_counter_increment(&self.name, amount);
        Ok(())
    }

    fn value(&self) -> (r: u64) {
        self.value
    }
}

/// The sum of a sequence of increment amounts never goes below zero.
pub proof fn lemma_sum_of_nonneg(amounts: Seq<u64>)
    ensures
        0 <= sum_of(amounts),
    decreases amounts.len(),
{
    if amounts.len() > 0 {
        lemma_sum_of_nonneg(amounts.drop_last());
    }
}

/// Law: after any sequence of increments that stays within 64 bits, a real
/// counter's value is its starting value plus the sum of all the amounts,
/// and its identity is untouched.
pub proof fn lemma_counter_value_is_sum(c: PrometheusCounter, amounts: Seq<u64>)
    requires
        c.spec_value() + sum_of(amounts) <= u64::MAX,
    ensures
        apply_increments(c, amounts).spec_value() == c.spec_value() + sum_of(amounts),
        apply_increments(c, amounts).id() == c.id(),
    decreases amounts.len(),
{
    if amounts.len() > 0 {
        lemma_sum_of_nonneg(amounts.drop_last());
        lemma_counter_value_is_sum(c, amounts.drop_last());
    }
}

/// The identity of a gauge of the real backend. Its description is
/// registered with the export sink at creation. The gauge's running value
/// is a floating-point number, which this verified core does not touch: an
/// embedder holds this identity together with the value it tracks and the
/// sink forwarding for it.
pub struct PrometheusGauge {
    name: String,
    description: String,
    labels: LabelMap,
}

impl PrometheusGauge {
    /// Create a gauge identity and register its description with the
    /// export sink.
    pub fn new(name: &str, description: &str, labels: LabelMap) -> (r: Result<
        Self,
        ObservabilityError,
    >)
        ensures
            (r matches Ok(g) && g.id() == (MetricIdentity {
                name: name@,
                description: description@,
                metric_type: MetricType::Gauge,
                labels: labels@,
            })),
    {
        let gauge = PrometheusGauge {
            name: String::from_str(name),
            description: String::from_str(description),
            labels,
        };
        sink_describe_gauge(&gauge.name, &gauge.description);
        Ok(gauge)
    }
}

impl Clone for PrometheusGauge {
    /// A clone is the same metric: it has the same identity.
    fn clone(&self) -> (r: Self)
        ensures
            r.id() == self.id(),
    {
        PrometheusGauge {
            name: self.name.clone(),
            description: self.description.clone(),
            labels: self.labels.clone(),
        }
    }
}

impl Metric for PrometheusGauge {
    closed spec fn id(&self) -> MetricIdentity {
        MetricIdentity {
            name: self.name@,
            description: self.description@,
            metric_type: MetricType::Gauge,
            labels: self.labels@,
        }
    }

    fn name(&self) -> (r: &str) {
        self.name.as_str()
    }

    fn description(&self) -> (r: &str) {
        self.description.as_str()
    }

    fn metric_type(&self) -> (r: MetricType) {
        MetricType::Gauge
    }

    fn labels(&self) -> (r: &LabelMap) {
        &self.labels
    }
}

/// A histogram of the real backend: a stateless identity that forwards
/// every observation to the export sink.
pub struct PrometheusHistogram {
    name: String,
    description: String,
    labels: LabelMap,
}

impl PrometheusHistogram {
    /// Create a histogram and register its description with the export sink.
    pub fn new(name: &str, description: &str, labels: LabelMap) -> (r: Result<
        Self,
        ObservabilityError,
    >)
        ensures
            (r matches Ok(h) && h.id() == (MetricIdentity {
                name: name@,
                description: description@,
                metric_type: MetricType::Histogram,
                labels: labels@,
            })),
    {
        let histogram = PrometheusHistogram {
            name: String::from_str(name),
            description: String::from_str(description),
            labels,
        };
        sink_describe_histogram(&histogram.name, &histogram.description);
        Ok(histogram)
    }
}

impl Clone for PrometheusHistogram {
    /// A clone is the same metric: it has the same identity.
    fn clone(&self) -> (r: Self)
        ensures
            r.id() == self.id(),
    {
        PrometheusHistogram {
            name: self.name.clone(),
            description: self.description.clone(),
            labels: self.labels.clone(),
        }
    }
}

impl Metric for PrometheusHistogram {
    closed spec fn id(&self) -> MetricIdentity {
        MetricIdentity {
            name: self.name@,
            description: self.description@,
            metric_type: MetricType::Histogram,
            labels: self.labels@,
        }
    }

    fn name(&self) -> (r: &str) {
        self.name.as_str()
    }

    fn description(&self) -> (r: &str) {
        self.description.as_str()
    }

    fn metric_type(&self) -> (r: MetricType) {
        MetricType::Histogram
    }

    fn labels(&self) -> (r: &LabelMap) {
        &self.labels
    }
}

impl Histogram for PrometheusHistogram {
    fn record(&self, value: Duration) -> (r: Result<(), ObservabilityError>) {
        sink_histogram_record(&self.name, value);
        Ok(())
    }

    fn start_timer(&self) -> (t: HistogramTimer) {
        HistogramTimer::new(HistogramHandle::Prometheus(self.clone()))
    }
}

/// An export configuration the real backend rejects: export is on and the
/// endpoint is neither empty nor a well-formed address.
pub open spec fn invalid_export_config(config: MetricsConfig) -> bool {
    config.prometheus_enabled && config.prometheus_endpoint@.len() > 0 && !valid_endpoint(
        config.prometheus_endpoint@,
    )
}

/// The registry of the real, exporting backend. Construction validates the
/// export configuration once; handing the validated endpoint to the export
/// listener is the embedder's step, outside this core.
pub struct PrometheusMetricsRegistry {
    name: String,
    initialized: bool,
    config: MetricsConfig,
}

impl PrometheusMetricsRegistry {
    /// The configuration the registry was built from.
    pub closed spec fn spec_config(&self) -> MetricsConfig {
        self.config
    }

    /// Whether the one-time initialization has run.
    pub closed spec fn spec_initialized(&self) -> bool {
        self.initialized
    }

    /// Create a registry for this configuration and initialize it at once.
    /// Fails with a configuration error exactly when the configuration's
    /// export endpoint is invalid.
    pub fn new(config: &MetricsConfig) -> (r: Result<Self, ObservabilityError>)
        ensures
            match r {
                Ok(reg) => !invalid_export_config(*config) && reg.spec_initialized()
                    && reg.spec_name() == "prometheus_registry"@ && reg.spec_config().enabled
                    == config.enabled && reg.spec_config().prometheus_enabled
                    == config.prometheus_enabled && reg.spec_config().prometheus_endpoint@
                    == config.prometheus_endpoint@ && reg.spec_config().default_labels@
                    == config.default_labels@ && reg.spec_config().include_plugin_id
                    == config.include_plugin_id,
                Err(e) => invalid_export_config(*config) && e
                    matches ObservabilityError::ConfigurationError(_),
            },
    {
        let mut registry = PrometheusMetricsRegistry {
            name: String::from_str("prometheus_registry"),
            initialized: false,
            config: config.clone(),
        };
        registry.initialize()?;
        Ok(registry)
    }

    /// The one-time initialization: validate the export configuration and
    /// mark the registry initialized. A second call is a no-op. Starting
    /// the export listener itself is I/O and belongs to the embedder, which
    /// only sees a registry whose endpoint has been validated.
    fn initialize(&mut self) -> (r: Result<(), ObservabilityError>)
        ensures
            old(self).spec_initialized() ==> r is Ok && *final(self) == *old(self),
            !old(self).spec_initialized() ==> match r {
                Ok(_) => !invalid_export_config(old(self).spec_config())
                    && final(self).spec_initialized()
                    && final(self).spec_config() == old(self).spec_config()
                    && final(self).spec_name() == old(self).spec_name(),
                Err(e) => invalid_export_config(old(self).spec_config())
                    && (e matches ObservabilityError::ConfigurationError(_))
                    && *final(self) == *old(self),
            },
    {
        if self.initialized {
            return Ok(());
        }
        if self.config.prometheus_enabled {
            if self.config.prometheus_endpoint.as_str().unicode_len() > 0 {
                if !validate_endpoint(self.config.prometheus_endpoint.as_str()) {
                    return Err(
                        ObservabilityError::ConfigurationError(
                            String::from_str("invalid export endpoint"),
                        ),
                    );
                }
            }
        }
        self.initialized = true;
        Ok(())
    }

    /// Merge the configured default labels and, when so configured, the
    /// caller's plugin id into `labels`. Caller-supplied keys always win;
    /// the plugin id fills its key last.
    pub fn add_default_labels(&self, ctx: &Context, labels: LabelMap) -> (r: LabelMap)
        ensures
            r@ == merged_labels(
                labels@,
                self.spec_config().default_labels@,
                ctx@,
                self.spec_config().include_plugin_id,
            ),
    {
        let mut labels = labels;
        labels.fill_missing_from(&self.config.default_labels);
        if self.config.include_plugin_id {
            match &ctx.plugin_id {
                Some(pid) => {
                    let key = String::from_str("plugin_id");
                    if !labels.contains_key(&key) {
                        labels.insert_if_absent(key, pid.clone());
                    }
                },
                None => {},
            }
        }
        labels
    }

}

impl MetricsRegistry for PrometheusMetricsRegistry {
    closed spec fn spec_name(&self) -> Seq<char> {
        self.name@
    }

    /// The handle carries the caller's labels merged with the configured
    /// defaults and, when so configured, the caller's plugin id.
    fn counter(&self, ctx: &Context, name: &str, description: &str, labels: LabelMap) -> (r:
        Result<CounterHandle, ObservabilityError>)
        ensures
            (r matches Ok(h) && h matches CounterHandle::Prometheus(_) && h.id()
                == (MetricIdentity {
                name: name@,
                description: description@,
                metric_type: MetricType::Counter,
                labels: merged_labels(
                    labels@,
                    self.spec_config().default_labels@,
                    ctx@,
                    self.spec_config().include_plugin_id,
                ),
            }) && h.spec_value() == 0),
    {
        proof {
            lemma_merge_precedence(
                labels@,
                self.spec_config().default_labels@,
                ctx@,
                self.spec_config().include_plugin_id,
            );
        }
        let merged = self.add_default_labels(ctx, labels);
        let counter = PrometheusCounter::new(name, description, merged)?;
        Ok(CounterHandle::Prometheus(counter))
    }

    fn gauge(&self, ctx: &Context, name: &str, description: &str, labels: LabelMap) -> (r: Result<
        GaugeHandle,
        ObservabilityError,
    >)
        ensures
            (r matches Ok(h) && h matches GaugeHandle::Prometheus(_) && h.id() == (MetricIdentity {
                name: name@,
                description: description@,
                metric_type: MetricType::Gauge,
                labels: merged_labels(
                    labels@,
                    self.spec_config().default_labels@,
                    ctx@,
                    self.spec_config().include_plugin_id,
                ),
            })),
    {
        proof {
            lemma_merge_precedence(
                labels@,
                self.spec_config().default_labels@,
                ctx@,
                self.spec_config().include_plugin_id,
            );
        }
        let merged = self.add_default_labels(ctx, labels);
        let gauge = PrometheusGauge::new(name, description, merged)?;
        Ok(GaugeHandle::Prometheus(gauge))
    }

    fn histogram(&self, ctx: &Context, name: &str, description: &str, labels: LabelMap) -> (r:
        Result<HistogramHandle, ObservabilityError>)
        ensures
            (r matches Ok(h) && h matches HistogramHandle::Prometheus(_) && h.id()
                == (MetricIdentity {
                name: name@,
                description: description@,
                metric_type: MetricType::Histogram,
                labels: merged_labels(
                    labels@,
                    self.spec_config().default_labels@,
                    ctx@,
                    self.spec_config().include_plugin_id,
                ),
            })),
    {
        proof {
            lemma_merge_precedence(
                labels@,
                self.spec_config().default_labels@,
                ctx@,
                self.spec_config().include_plugin_id,
            );
        }
        let merged = self.add_default_labels(ctx, labels);
        let histogram = PrometheusHistogram::new(name, description, merged)?;
        Ok(HistogramHandle::Prometheus(histogram))
    }

    fn shutdown(&self) -> (r: Result<(), ObservabilityError>) {
        Ok(())
    }

    fn name(&self) -> (r: &str) {
        self.name.as_str()
    }
}

} // verus!
