use obsmetrics::capability::{
    AllowAllCapabilityChecker, CapabilityMetricsRegistry, DenyAllCapabilityChecker,
};
use obsmetrics::context::Context;
use obsmetrics::labels::LabelMap;
use obsmetrics::metric::{Counter, Histogram};
use obsmetrics::noop::NoopMetricsRegistry;
use obsmetrics::registry::{GaugeHandle, MetricsRegistry};
use std::time::Duration;

#[test]
fn test_counter() {
    let registry = NoopMetricsRegistry::new();
    let ctx = Context::anonymous();
    let mut counter = registry
        .counter(&ctx, "test_counter", "Test counter", LabelMap::new())
        .unwrap();

    // Initial value is 0
    assert_eq!(counter.value(), 0);

    // Increment and check
    counter.increment(5).unwrap();
    assert_eq!(counter.value(), 0); // the discarding counter always reports 0
}

#[test]
fn test_gauge() {
    let registry = NoopMetricsRegistry::new();
    let ctx = Context::anonymous();
    let gauge = registry
        .gauge(&ctx, "test_gauge", "Test gauge", LabelMap::new())
        .unwrap();
    let gauge = match gauge {
        GaugeHandle::Noop(g) => g,
        GaugeHandle::Prometheus(_) => panic!("expected the discarding gauge"),
    };

    // Initial value is 0
    assert_eq!(f64::from_bits(gauge.value()), 0.0);

    // Set and check
    gauge.set((5.0f64).to_bits()).unwrap();
    assert_eq!(f64::from_bits(gauge.value()), 0.0); // the discarding gauge always reports 0.0

    // Increment and check
    gauge.increment((2.5f64).to_bits()).unwrap();
    assert_eq!(f64::from_bits(gauge.value()), 0.0);

    // Decrement and check
    gauge.decrement((1.5f64).to_bits()).unwrap();
    assert_eq!(f64::from_bits(gauge.value()), 0.0);
}

#[test]
fn test_histogram() {
    let registry = NoopMetricsRegistry::new();
    let ctx = Context::anonymous();
    let histogram = registry
        .histogram(&ctx, "test_histogram", "Test histogram", LabelMap::new())
        .unwrap();

    // Record value
    histogram.record(Duration::from_secs_f64(5.0)).unwrap();

    // Start timer
    let timer = histogram.start_timer();
    let _ = timer.stop().unwrap();
}

#[test]
fn test_capability_registry_allow() {
    let inner = NoopMetricsRegistry::new();
    let checker = AllowAllCapabilityChecker;
    let registry = CapabilityMetricsRegistry::new(inner, checker);
    let ctx = Context::anonymous();

    assert!(registry.counter(&ctx, "test", "test", LabelMap::new()).is_ok());
    assert!(registry.gauge(&ctx, "test", "test", LabelMap::new()).is_ok());
    assert!(registry
        .histogram(&ctx, "test", "test", LabelMap::new())
        .is_ok());
}

#[test]
fn test_capability_registry_deny() {
    let inner = NoopMetricsRegistry::new();
    let checker = DenyAllCapabilityChecker;
    let registry = CapabilityMetricsRegistry::new(inner, checker);
    let ctx = Context::anonymous();

    assert!(registry.counter(&ctx, "test", "test", LabelMap::new()).is_err());
    assert!(registry.gauge(&ctx, "test", "test", LabelMap::new()).is_err());
    assert!(registry
        .histogram(&ctx, "test", "test", LabelMap::new())
        .is_err());
}
