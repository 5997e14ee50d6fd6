use vstd::prelude::*;

verus! {

/// The error kinds of the metrics core.
///
/// Configuration and install errors are fatal to registry construction;
/// a capability error means the caller may not create metrics and is
/// expected to carry on without them; a metrics error wraps any other
/// backend failure.
#[derive(Debug)]
pub enum ObservabilityError {
    /// The configuration is malformed, e.g. an invalid export endpoint.
    ConfigurationError(String),
    /// The export sink could not be started or installed.
    BackendInstallError(String),
    /// The caller does not hold the capability the operation needs.
    CapabilityError(String),
    /// Any other backend failure.
    MetricsError(String),
}

impl ObservabilityError {
    /// The human-readable message the error carries.
    pub fn message(&self) -> (r: &str)
        ensures
            r@ == self.spec_message(),
    {
        match self {
            ObservabilityError::ConfigurationError(m) => m.as_str(),
            ObservabilityError::BackendInstallError(m) => m.as_str(),
            ObservabilityError::CapabilityError(m) => m.as_str(),
            ObservabilityError::MetricsError(m) => m.as_str(),
        }
    }

    /// The message as a mathematical sequence of characters.
    pub open spec fn spec_message(&self) -> Seq<char> {
        match self {
            ObservabilityError::ConfigurationError(m) => m@,
            ObservabilityError::BackendInstallError(m) => m@,
            ObservabilityError::CapabilityError(m) => m@,
            ObservabilityError::MetricsError(m) => m@,
        }
    }
}

} // verus!
