use vstd::prelude::*;

pub mod capability;
pub mod config;
pub mod context;
pub mod endpoint;
pub mod errors;
pub mod labels;
pub mod metric;
pub mod noop;
pub mod prometheus;
pub mod registry;
pub mod timer;

use crate::config::MetricsConfig;
use crate::errors::ObservabilityError;
use crate::noop::NoopMetricsRegistry;
use crate::prometheus::{invalid_export_config, PrometheusMetricsRegistry};
use crate::registry::{MetricsRegistry, Registry};

verus! {

/// The kind of a metric: a counter only ever grows, a gauge moves both ways,
/// and a histogram collects a distribution of observations.
#[derive(Debug, Clone, Copy, PartialEq, Eq, Hash, Structural)]
pub enum MetricType {
    /// A monotonically increasing value.
    Counter,
    /// A value that can go up and down.
    Gauge,
    /// A distribution of observed values.
    Histogram,
}

impl MetricType {
    /// The lower-case name of the metric kind.
    pub fn as_str(&self) -> (r: &'static str)
        ensures
            *self == MetricType::Counter ==> r@ == "counter"@,
            *self == MetricType::Gauge ==> r@ == "gauge"@,
            *self == MetricType::Histogram ==> r@ == "histogram"@,
    {
        match self {
            MetricType::Counter => "counter",
            MetricType::Gauge => "gauge",
            MetricType::Histogram => "histogram",
        }
    }
}

/// Choose a backend from the configuration: the discarding one when metrics
/// are disabled, the real one otherwise. The real backend's construction
/// fails with a configuration error exactly when its export endpoint is
/// invalid, and then no registry is returned.
pub fn create_registry(config: &MetricsConfig) -> (r: Result<Registry, ObservabilityError>)
    ensures
        !config.enabled ==> (r matches Ok(reg) && reg matches Registry::Noop(n) && n.spec_name()
            == "noop_registry"@),
        config.enabled ==> match r {
            Ok(reg) => !invalid_export_config(*config) && (reg matches Registry::Prometheus(p)
                && p.spec_initialized() && p.spec_name() == "prometheus_registry"@
                && p.spec_config().enabled == config.enabled && p.spec_config().prometheus_enabled
                == config.prometheus_enabled && p.spec_config().prometheus_endpoint@
                == config.prometheus_endpoint@ && p.spec_config().default_labels@
                == config.default_labels@ && p.spec_config().include_plugin_id
                == config.include_plugin_id),
            Err(e) => invalid_export_config(*config) && e
                matches ObservabilityError::ConfigurationError(_),
        },
{
    if !config.enabled {
        return Ok(Registry::Noop(NoopMetricsRegistry::new()));
    }
    let registry = PrometheusMetricsRegistry::new(config)?;
    Ok(Registry::Prometheus(registry))
}

} // verus!
