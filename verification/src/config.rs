use vstd::prelude::*;
use crate::labels::LabelMap;

verus! {

/// The configuration this core reads: whether metrics are collected at all,
/// whether and where they are exported, which labels every metric carries by
/// default, and whether the calling plugin's identity is added as a label.
pub struct MetricsConfig {
    /// When false, the factory produces the discarding backend.
    pub enabled: bool,
    /// When true, the real backend exports its metrics.
    pub prometheus_enabled: bool,
    /// The export listener address, `host:port`, or empty for none.
    pub prometheus_endpoint: String,
    /// Labels merged into every metric the real backend creates.
    pub default_labels: LabelMap,
    /// When true, the caller's plugin id is merged in as a label.
    pub include_plugin_id: bool,
}

impl Clone for MetricsConfig {
    /// A clone agrees with the original on every field.
    fn clone(&self) -> (r: Self)
        ensures
            r.enabled == self.enabled,
            r.prometheus_enabled == self.prometheus_enabled,
            r.prometheus_endpoint@ == self.prometheus_endpoint@,
            r.default_labels@ == self.default_labels@,
            r.include_plugin_id == self.include_plugin_id,
    {
        MetricsConfig {
            enabled: self.enabled,
            prometheus_enabled: self.prometheus_enabled,
            prometheus_endpoint: self.prometheus_endpoint.clone(),
            default_labels: self.default_labels.clone(),
            include_plugin_id: self.include_plugin_id,
        }
    }
}

} // verus!
