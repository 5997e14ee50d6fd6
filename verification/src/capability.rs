use vstd::prelude::*;
use crate::context::{resolved_plugin_id, Context};
use crate::errors::ObservabilityError;
use crate::labels::LabelMap;
use crate::registry::{CounterHandle, GaugeHandle, HistogramHandle, MetricsRegistry};

verus! {

/// The capabilities this core checks; metric creation needs `Metrics`.
#[derive(Debug, Clone, Copy, PartialEq, Eq, Structural)]
pub enum ObservabilityCapability {
    /// Permission to create and update metrics.
    Metrics,
}

/// The collaborator that answers whether a caller holds a capability.
/// Embedders implement it; this crate ships the two constant answers.
pub trait ObservabilityCapabilityChecker {
    /// The checker's verdict for this caller and capability: `Ok(true)` to
    /// allow, `Ok(false)` to deny, or the checker's own error. An
    /// implementation that does not say otherwise denies.
    open spec fn decision(&self, plugin_id: Seq<char>, capability: ObservabilityCapability) -> Result<
        bool,
        ObservabilityError,
    > {
        Ok(false)
    }

    /// Ask for the verdict.
    fn check_capability(&self, plugin_id: &str, capability: ObservabilityCapability) -> (r: Result<
        bool,
        ObservabilityError,
    >)
        ensures
            r == self.decision(plugin_id@, capability),
    ;
}

/// A checker that allows every caller everything.
pub struct AllowAllCapabilityChecker;

impl ObservabilityCapabilityChecker for AllowAllCapabilityChecker {
    open spec fn decision(&self, plugin_id: Seq<char>, capability: ObservabilityCapability) -> Result<
        bool,
        ObservabilityError,
    > {
        Ok(true)
    }

    fn check_capability(&self, _plugin_id: &str, _capability: ObservabilityCapability) -> (r:
        Result<bool, ObservabilityError>) {
        Ok(true)
    }
}

/// A checker that denies every caller everything.
pub struct DenyAllCapabilityChecker;

impl ObservabilityCapabilityChecker for DenyAllCapabilityChecker {
    open spec fn decision(&self, plugin_id: Seq<char>, capability: ObservabilityCapability) -> Result<
        bool,
        ObservabilityError,
    > {
        Ok(false)
    }

    fn check_capability(&self, _plugin_id: &str, _capability: ObservabilityCapability) -> (r:
        Result<bool, ObservabilityError>) {
        Ok(false)
    }
}

/// A registry that wraps any other registry and checks, before every metric
/// creation, that the caller the context identifies holds the `Metrics`
/// capability. On denial it fails closed with a capability error and never
/// touches the wrapped registry; on a checker error it propagates that
/// error; only when the checker allows does it delegate, unchanged.
/// `shutdown` is administrative and delegates without a check.
pub struct CapabilityMetricsRegistry<R, C> {
    name: String,
    inner: R,
    checker: C,
}

impl<R: MetricsRegistry, C: ObservabilityCapabilityChecker> CapabilityMetricsRegistry<R, C> {
    /// The wrapped registry.
    pub closed spec fn spec_inner(&self) -> R {
        self.inner
    }

    /// The capability checker consulted before each creation.
    pub closed spec fn spec_checker(&self) -> C {
        self.checker
    }

    /// Wrap `inner` behind capability checks answered by `checker`.
    pub fn new(inner: R, checker: C) -> (r: Self)
        ensures
            r.spec_inner() == inner,
            r.spec_checker() == checker,
            r.spec_name() == "capability_registry("@ + inner.spec_name() + ")"@,
    {
        let mut name = String::from_str("capability_registry(");
        name.append(inner.name());
        name.append(")");
        CapabilityMetricsRegistry { name, inner, checker }
    }

    /// The verdict for the caller the context identifies, under the
    /// `Metrics` capability; an absent identity is asked for as `unknown`.
    pub fn check_capability(&self, ctx: &Context) -> (r: Result<bool, ObservabilityError>)
        ensures
            r == self.spec_checker().decision(
                resolved_plugin_id(ctx@),
                ObservabilityCapability::Metrics,
            ),
    {
        let plugin_id = ctx.resolve_plugin_id();
        self.checker.check_capability(plugin_id.as_str(), ObservabilityCapability::Metrics)
    }
}

impl<R: MetricsRegistry, C: ObservabilityCapabilityChecker> MetricsRegistry for CapabilityMetricsRegistry<
    R,
    C,
> {
    closed spec fn spec_name(&self) -> Seq<char> {
        self.name@
    }

    /// Denied callers get a capability error and the wrapped registry is
    /// not consulted; a checker error propagates as it is; an allowed
    /// caller's request is delegated unchanged: the result is one the
    /// wrapped registry's own contract admits for the same arguments.
    fn counter(&self, ctx: &Context, name: &str, description: &str, labels: LabelMap) -> (r:
        Result<CounterHandle, ObservabilityError>)
        ensures
            (self.spec_checker().decision(resolved_plugin_id(ctx@), ObservabilityCapability::Metrics)
                matches Err(e) ==> r == Err::<CounterHandle, ObservabilityError>(e)),
            (self.spec_checker().decision(resolved_plugin_id(ctx@), ObservabilityCapability::Metrics)
                == Ok::<bool, ObservabilityError>(false) ==> (r matches Err(e) && e
                matches ObservabilityError::CapabilityError(m) && m@
                == "Missing metrics capability"@)),
            (self.spec_checker().decision(resolved_plugin_id(ctx@), ObservabilityCapability::Metrics)
                == Ok::<bool, ObservabilityError>(true) ==> call_ensures(
                <R as MetricsRegistry>::counter,
                (&self.spec_inner(), ctx, name, description, labels),
                r,
            )),
    {
        match self.check_capability(ctx) {
            Err(e) => Err(e),
            Ok(false) => Err(
                ObservabilityError::CapabilityError(
                    String::from_str("Missing metrics capability"),
                ),
            ),
            Ok(true) => self.inner.counter(ctx, name, description, labels),
        }
    }

    fn gauge(&self, ctx: &Context, name: &str, description: &str, labels: LabelMap) -> (r: Result<
        GaugeHandle,
        ObservabilityError,
    >)
        ensures
            (self.spec_checker().decision(resolved_plugin_id(ctx@), ObservabilityCapability::Metrics)
                matches Err(e) ==> r == Err::<GaugeHandle, ObservabilityError>(e)),
            (self.spec_checker().decision(resolved_plugin_id(ctx@), ObservabilityCapability::Metrics)
                == Ok::<bool, ObservabilityError>(false) ==> (r matches Err(e) && e
                matches ObservabilityError::CapabilityError(m) && m@
                == "Missing metrics capability"@)),
            (self.spec_checker().decision(resolved_plugin_id(ctx@), ObservabilityCapability::Metrics)
                == Ok::<bool, ObservabilityError>(true) ==> call_ensures(
                <R as MetricsRegistry>::gauge,
                (&self.spec_inner(), ctx, name, description, labels),
                r,
            )),
    {
        match self.check_capability(ctx) {
            Err(e) => Err(e),
            Ok(false) => Err(
                ObservabilityError::CapabilityError(
                    String::from_str("Missing metrics capability"),
                ),
            ),
            Ok(true) => self.inner.gauge(ctx, name, description, labels),
        }
    }

    fn histogram(&self, ctx: &Context, name: &str, description: &str, labels: LabelMap) -> (r:
        Result<HistogramHandle, ObservabilityError>)
        ensures
            (self.spec_checker().decision(resolved_plugin_id(ctx@), ObservabilityCapability::Metrics)
                matches Err(e) ==> r == Err::<HistogramHandle, ObservabilityError>(e)),
            (self.spec_checker().decision(resolved_plugin_id(ctx@), ObservabilityCapability::Metrics)
                == Ok::<bool, ObservabilityError>(false) ==> (r matches Err(e) && e
                matches ObservabilityError::CapabilityError(m) && m@
                == "Missing metrics capability"@)),
            (self.spec_checker().decision(resolved_plugin_id(ctx@), ObservabilityCapability::Metrics)
                == Ok::<bool, ObservabilityError>(true) ==> call_ensures(
                <R as MetricsRegistry>::histogram,
                (&self.spec_inner(), ctx, name, description, labels),
                r,
            )),
    {
        match self.check_capability(ctx) {
            Err(e) => Err(e),
            Ok(false) => Err(
                ObservabilityError::CapabilityError(
                    String::from_str("Missing metrics capability"),
                ),
            ),
            Ok(true) => self.inner.histogram(ctx, name, description, labels),
        }
    }

    /// Shutdown is administrative: it delegates without a capability check.
    fn shutdown(&self) -> (r: Result<(), ObservabilityError>) {
        self.inner.shutdown()
    }

    fn name(&self) -> (r: &str) {
        self.name.as_str()
    }
}

} // verus!
