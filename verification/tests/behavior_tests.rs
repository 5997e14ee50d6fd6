use obsmetrics::capability::{
    AllowAllCapabilityChecker, CapabilityMetricsRegistry, DenyAllCapabilityChecker,
    ObservabilityCapability, ObservabilityCapabilityChecker,
};
use obsmetrics::config::MetricsConfig;
use obsmetrics::context::Context;
use obsmetrics::create_registry;
use obsmetrics::endpoint::validate_endpoint;
use obsmetrics::errors::ObservabilityError;
use obsmetrics::labels::LabelMap;
use obsmetrics::metric::{Counter, Histogram, Metric};
use obsmetrics::noop::NoopMetricsRegistry;
use obsmetrics::prometheus::{PrometheusCounter, PrometheusMetricsRegistry};
use obsmetrics::registry::{CounterHandle, GaugeHandle, HistogramHandle, MetricsRegistry, Registry};
use obsmetrics::MetricType;
use std::cell::{Cell, RefCell};
use std::rc::Rc;

fn config(
    enabled: bool,
    prometheus_enabled: bool,
    endpoint: &str,
    default_labels: LabelMap,
    include_plugin_id: bool,
) -> MetricsConfig {
    MetricsConfig {
        enabled,
        prometheus_enabled,
        prometheus_endpoint: endpoint.to_string(),
        default_labels,
        include_plugin_id,
    }
}

#[test]
fn endpoint_accepts_well_formed_addresses() {
    assert!(validate_endpoint("127.0.0.1:9090"));
    assert!(validate_endpoint("0.0.0.0:80"));
    assert!(validate_endpoint("10.1.255.3:65535"));
    assert!(validate_endpoint("192.168.0.1:1"));
    assert!(validate_endpoint("1.2.3.4:070"));
    assert!(validate_endpoint("127.0.0.1:00080"));
}

#[test]
fn endpoint_accepts_bracketed_six_form_addresses() {
    assert!(validate_endpoint("[::1]:9090"));
    assert!(validate_endpoint("[::]:80"));
    assert!(validate_endpoint("[2001:db8::8a2e:370:7334]:443"));
    assert!(validate_endpoint("[1:2:3:4:5:6:7:8]:80"));
    assert!(validate_endpoint("[::ffff:192.168.0.1]:8080"));
    assert!(validate_endpoint("[1:2:3:4:5:6:192.168.0.1]:80"));
    assert!(validate_endpoint("[fe80::1]:0"));
    assert!(validate_endpoint("[1:2:3:4:5:6:7::]:80"));
    assert!(validate_endpoint("[FE80::A:b]:443"));
}

#[test]
fn endpoint_rejects_malformed_addresses() {
    assert!(!validate_endpoint(""));
    assert!(!validate_endpoint("127.0.0.1"));
    assert!(!validate_endpoint("localhost:9090"));
    assert!(!validate_endpoint("256.0.0.1:80"));
    assert!(!validate_endpoint("1.2.3.4:65536"));
    assert!(!validate_endpoint("01.2.3.4:80"));
    assert!(!validate_endpoint("1.2.3:80"));
    assert!(!validate_endpoint("1.2.3.4.5:80"));
    assert!(!validate_endpoint("1.2.3.4:"));
    assert!(!validate_endpoint(":80"));
    assert!(!validate_endpoint("1.2.3.4:80:90"));
}

#[test]
fn endpoint_rejects_malformed_six_form_addresses() {
    assert!(!validate_endpoint("[::1]9090"));
    assert!(!validate_endpoint("[::1]"));
    assert!(!validate_endpoint("[::1]:"));
    assert!(!validate_endpoint("[1::2::3]:80"));
    assert!(!validate_endpoint("[1:2:3:4:5:6:7:8:9]:80"));
    assert!(!validate_endpoint("[12345::1]:80"));
    assert!(!validate_endpoint("[g::1]:80"));
    assert!(!validate_endpoint("[]:80"));
    assert!(!validate_endpoint("[:::]:80"));
    assert!(!validate_endpoint("[1.2.3.4]:80"));
    assert!(!validate_endpoint("::1:9090"));
    assert!(!validate_endpoint("[::1]:65536"));
    assert!(!validate_endpoint("[1:2:3:4:5:6:7:8::]:80"));
    assert!(!validate_endpoint("[1:2:3:4:5:6:7]:80"));
}

#[test]
fn factory_picks_noop_when_disabled() {
    let cfg = config(false, true, "not an address", LabelMap::new(), false);
    let registry = create_registry(&cfg).unwrap();
    assert!(matches!(registry, Registry::Noop(_)));
    assert_eq!(registry.name(), "noop_registry");
    assert!(registry.shutdown().is_ok());
}

#[test]
fn factory_picks_real_backend_when_enabled() {
    let cfg = config(true, false, "", LabelMap::new(), false);
    let registry = create_registry(&cfg).unwrap();
    assert!(matches!(registry, Registry::Prometheus(_)));
    assert_eq!(registry.name(), "prometheus_registry");
    assert!(registry.shutdown().is_ok());
    assert!(registry.shutdown().is_ok());
}

#[test]
fn malformed_endpoint_fails_construction() {
    let cfg = config(true, true, "not an address", LabelMap::new(), false);
    match create_registry(&cfg) {
        Err(ObservabilityError::ConfigurationError(_)) => {}
        _ => panic!("expected a configuration error"),
    }
    match PrometheusMetricsRegistry::new(&cfg) {
        Err(ObservabilityError::ConfigurationError(_)) => {}
        _ => panic!("expected a configuration error"),
    }
}

#[test]
fn empty_endpoint_is_accepted() {
    let cfg = config(true, true, "", LabelMap::new(), false);
    assert!(PrometheusMetricsRegistry::new(&cfg).is_ok());
}

#[test]
fn six_form_endpoint_is_accepted() {
    let cfg = config(true, true, "[::1]:9090", LabelMap::new(), false);
    assert!(PrometheusMetricsRegistry::new(&cfg).is_ok());
    let cfg = config(true, true, "[::1]:9090", LabelMap::new(), false);
    assert!(create_registry(&cfg).is_ok());
}

#[test]
fn label_map_first_write_wins() {
    let mut labels = LabelMap::new();
    assert!(labels.insert_if_absent("app".to_string(), "one".to_string()));
    assert!(!labels.insert_if_absent("app".to_string(), "two".to_string()));
    assert_eq!(labels.get(&"app".to_string()).unwrap().as_str(), "one");
    assert!(labels.contains_key(&"app".to_string()));
    assert!(!labels.contains_key(&"other".to_string()));
    assert_eq!(labels.num_entries(), 1);
    assert_eq!(labels.key_at(0).as_str(), "app");
    assert_eq!(labels.value_at(0).as_str(), "one");
}

fn default_labels() -> LabelMap {
    let mut defaults = LabelMap::new();
    defaults.insert_if_absent("env".to_string(), "prod".to_string());
    defaults.insert_if_absent("app".to_string(), "core".to_string());
    defaults
}

#[test]
fn merge_fills_missing_keys_and_keeps_caller_keys() {
    let cfg = config(true, false, "", default_labels(), true);
    let registry = PrometheusMetricsRegistry::new(&cfg).unwrap();
    let mut caller = LabelMap::new();
    caller.insert_if_absent("app".to_string(), "plugin_app".to_string());
    let ctx = Context::for_plugin("p1".to_string());
    let merged = registry.add_default_labels(&ctx, caller);
    assert_eq!(merged.get(&"app".to_string()).unwrap().as_str(), "plugin_app");
    assert_eq!(merged.get(&"env".to_string()).unwrap().as_str(), "prod");
    assert_eq!(merged.get(&"plugin_id".to_string()).unwrap().as_str(), "p1");
}

#[test]
fn merge_never_overwrites_caller_plugin_id() {
    let cfg = config(true, false, "", default_labels(), true);
    let registry = PrometheusMetricsRegistry::new(&cfg).unwrap();
    let mut caller = LabelMap::new();
    caller.insert_if_absent("plugin_id".to_string(), "mine".to_string());
    let ctx = Context::for_plugin("other".to_string());
    let merged = registry.add_default_labels(&ctx, caller);
    assert_eq!(merged.get(&"plugin_id".to_string()).unwrap().as_str(), "mine");
}

#[test]
fn merge_skips_plugin_id_when_not_configured_or_unknown() {
    let cfg = config(true, false, "", default_labels(), false);
    let registry = PrometheusMetricsRegistry::new(&cfg).unwrap();
    let ctx = Context::for_plugin("p1".to_string());
    let merged = registry.add_default_labels(&ctx, LabelMap::new());
    assert!(!merged.contains_key(&"plugin_id".to_string()));

    let cfg = config(true, false, "", default_labels(), true);
    let registry = PrometheusMetricsRegistry::new(&cfg).unwrap();
    let merged = registry.add_default_labels(&Context::anonymous(), LabelMap::new());
    assert!(!merged.contains_key(&"plugin_id".to_string()));
    assert_eq!(merged.get(&"env".to_string()).unwrap().as_str(), "prod");
}

#[test]
fn real_counter_value_is_sum_of_increments() {
    let mut counter =
        PrometheusCounter::new("requests_total", "Requests served", LabelMap::new()).unwrap();
    assert_eq!(counter.value(), 0);
    counter.increment(5).unwrap();
    counter.increment(7).unwrap();
    counter.increment(0).unwrap();
    assert_eq!(counter.value(), 12);
}

#[test]
fn real_registry_merges_labels_into_counter() {
    let cfg = config(true, false, "", default_labels(), true);
    let registry = PrometheusMetricsRegistry::new(&cfg).unwrap();
    let ctx = Context::for_plugin("p1".to_string());
    let counter = registry
        .counter(&ctx, "c", "a counter", LabelMap::new())
        .unwrap();
    assert!(matches!(counter, CounterHandle::Prometheus(_)));
    assert_eq!(counter.name(), "c");
    assert_eq!(counter.description(), "a counter");
    assert_eq!(counter.metric_type(), MetricType::Counter);
    let labels = counter.labels();
    assert_eq!(labels.get(&"env".to_string()).unwrap().as_str(), "prod");
    assert_eq!(labels.get(&"plugin_id".to_string()).unwrap().as_str(), "p1");
}

#[test]
fn timer_records_at_most_once() {
    let registry = NoopMetricsRegistry::new();
    let ctx = Context::anonymous();
    let histogram = registry
        .histogram(&ctx, "latency", "Latency", LabelMap::new())
        .unwrap();
    let mut timer = histogram.start_timer();
    assert!(timer.record_remaining());
    assert!(!timer.record_remaining());
    assert!(!timer.record_remaining());

    let timer = histogram.start_timer();
    assert!(timer.stop().is_ok());
}

#[test]
fn metric_type_names() {
    assert_eq!(MetricType::Counter.as_str(), "counter");
    assert_eq!(MetricType::Gauge.as_str(), "gauge");
    assert_eq!(MetricType::Histogram.as_str(), "histogram");
}

#[test]
fn error_messages_are_kept() {
    let e = ObservabilityError::CapabilityError("no capability".to_string());
    assert_eq!(e.message(), "no capability");
    let e = ObservabilityError::ConfigurationError("bad endpoint".to_string());
    assert_eq!(e.message(), "bad endpoint");
    let e = ObservabilityError::BackendInstallError("install failed".to_string());
    assert_eq!(e.message(), "install failed");
    let e = ObservabilityError::MetricsError("backend broke".to_string());
    assert_eq!(e.message(), "backend broke");
}

#[test]
fn decorator_reports_composed_name() {
    let registry =
        CapabilityMetricsRegistry::new(NoopMetricsRegistry::new(), AllowAllCapabilityChecker);
    assert_eq!(registry.name(), "capability_registry(noop_registry)");
}

#[test]
fn denied_caller_gets_capability_error() {
    let registry =
        CapabilityMetricsRegistry::new(NoopMetricsRegistry::new(), DenyAllCapabilityChecker);
    let ctx = Context::for_plugin("p1".to_string());
    match registry.counter(&ctx, "c", "c", LabelMap::new()) {
        Err(ObservabilityError::CapabilityError(m)) => {
            assert_eq!(m, "Missing metrics capability");
        }
        _ => panic!("expected a capability error"),
    }
    // shutdown is administrative and needs no capability
    assert!(registry.shutdown().is_ok());
}

struct FailingChecker;

impl ObservabilityCapabilityChecker for FailingChecker {
    fn check_capability(
        &self,
        _plugin_id: &str,
        _capability: ObservabilityCapability,
    ) -> Result<bool, ObservabilityError> {
        Err(ObservabilityError::MetricsError("checker broke".to_string()))
    }
}

#[test]
fn checker_errors_propagate() {
    let registry = CapabilityMetricsRegistry::new(NoopMetricsRegistry::new(), FailingChecker);
    let ctx = Context::anonymous();
    match registry.gauge(&ctx, "g", "g", LabelMap::new()) {
        Err(ObservabilityError::MetricsError(m)) => assert_eq!(m, "checker broke"),
        _ => panic!("expected the checker's own error"),
    }
}

struct SpyRegistry {
    calls: Rc<Cell<u32>>,
    inner: NoopMetricsRegistry,
}

impl MetricsRegistry for SpyRegistry {
    fn counter(
        &self,
        ctx: &Context,
        name: &str,
        description: &str,
        labels: LabelMap,
    ) -> Result<CounterHandle, ObservabilityError> {
        self.calls.set(self.calls.get() + 1);
        self.inner.counter(ctx, name, description, labels)
    }

    fn gauge(
        &self,
        ctx: &Context,
        name: &str,
        description: &str,
        labels: LabelMap,
    ) -> Result<GaugeHandle, ObservabilityError> {
        self.calls.set(self.calls.get() + 1);
        self.inner.gauge(ctx, name, description, labels)
    }

    fn histogram(
        &self,
        ctx: &Context,
        name: &str,
        description: &str,
        labels: LabelMap,
    ) -> Result<HistogramHandle, ObservabilityError> {
        self.calls.set(self.calls.get() + 1);
        self.inner.histogram(ctx, name, description, labels)
    }

    fn shutdown(&self) -> Result<(), ObservabilityError> {
        Ok(())
    }

    fn name(&self) -> &str {
        "spy"
    }
}

#[test]
fn denied_caller_never_reaches_inner_registry() {
    let calls = Rc::new(Cell::new(0));
    let spy = SpyRegistry { calls: Rc::clone(&calls), inner: NoopMetricsRegistry::new() };
    let registry = CapabilityMetricsRegistry::new(spy, DenyAllCapabilityChecker);
    let ctx = Context::anonymous();
    assert!(registry.counter(&ctx, "c", "c", LabelMap::new()).is_err());
    assert!(registry.gauge(&ctx, "g", "g", LabelMap::new()).is_err());
    assert!(registry.histogram(&ctx, "h", "h", LabelMap::new()).is_err());
    assert_eq!(calls.get(), 0);
}

#[test]
fn allowed_caller_reaches_inner_registry() {
    let calls = Rc::new(Cell::new(0));
    let spy = SpyRegistry { calls: Rc::clone(&calls), inner: NoopMetricsRegistry::new() };
    let registry = CapabilityMetricsRegistry::new(spy, AllowAllCapabilityChecker);
    let ctx = Context::anonymous();
    assert!(registry.counter(&ctx, "c", "c", LabelMap::new()).is_ok());
    assert_eq!(calls.get(), 1);
}

#[test]
fn allowed_calls_match_the_inner_registry() {
    let ctx = Context::anonymous();
    let inner = NoopMetricsRegistry::new();
    let direct = inner
        .counter(&ctx, "c", "a counter", LabelMap::new())
        .unwrap();
    let registry =
        CapabilityMetricsRegistry::new(NoopMetricsRegistry::new(), AllowAllCapabilityChecker);
    let decorated = registry
        .counter(&ctx, "c", "a counter", LabelMap::new())
        .unwrap();
    assert_eq!(direct.name(), decorated.name());
    assert_eq!(direct.description(), decorated.description());
    assert_eq!(direct.metric_type(), decorated.metric_type());
    assert!(matches!(decorated, CounterHandle::Noop(_)));
    let mut direct = direct;
    let mut decorated = decorated;
    assert_eq!(direct.value(), decorated.value());
    direct.increment(3).unwrap();
    decorated.increment(3).unwrap();
    assert_eq!(direct.value(), decorated.value());
}

#[test]
fn disabled_metrics_cost_nothing_end_to_end() {
    let cfg = config(false, false, "", LabelMap::new(), false);
    let registry = create_registry(&cfg).unwrap();
    let ctx = Context::anonymous();
    let mut counter = registry
        .counter(&ctx, "ops_total", "Operations", LabelMap::new())
        .unwrap();
    counter.increment(3).unwrap();
    counter.increment(4).unwrap();
    assert_eq!(counter.value(), 0);
    let histogram = registry
        .histogram(&ctx, "latency", "Latency", LabelMap::new())
        .unwrap();
    assert!(histogram.record(std::time::Duration::from_millis(3)).is_ok());
}

#[test]
fn enabled_metrics_track_values_end_to_end() {
    let cfg = config(true, false, "", default_labels(), false);
    let registry = create_registry(&cfg).unwrap();
    let ctx = Context::anonymous();
    let mut counter = registry
        .counter(&ctx, "ops_total", "Operations", LabelMap::new())
        .unwrap();
    counter.increment(3).unwrap();
    counter.increment(4).unwrap();
    assert_eq!(counter.value(), 7);
    assert_eq!(
        counter.labels().get(&"env".to_string()).unwrap().as_str(),
        "prod"
    );
}

struct RecordingChecker {
    seen: Rc<RefCell<Vec<String>>>,
}

impl ObservabilityCapabilityChecker for RecordingChecker {
    fn check_capability(
        &self,
        plugin_id: &str,
        _capability: ObservabilityCapability,
    ) -> Result<bool, ObservabilityError> {
        self.seen.borrow_mut().push(plugin_id.to_string());
        Ok(true)
    }
}

#[test]
fn caller_identity_is_resolved_from_context() {
    let seen = Rc::new(RefCell::new(Vec::new()));
    let checker = RecordingChecker { seen: Rc::clone(&seen) };
    let registry = CapabilityMetricsRegistry::new(NoopMetricsRegistry::new(), checker);
    assert!(registry
        .counter(&Context::anonymous(), "c", "c", LabelMap::new())
        .is_ok());
    assert!(registry
        .counter(&Context::for_plugin("p7".to_string()), "c", "c", LabelMap::new())
        .is_ok());
    assert_eq!(seen.borrow().as_slice(), ["unknown".to_string(), "p7".to_string()]);
}
