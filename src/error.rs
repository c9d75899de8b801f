use vstd::prelude::*;

verus! {

/// The error taxonomy shared by the executor, the shim bridge and the control tool.
#[derive(Debug, Clone, PartialEq, Eq)]
pub enum FlameError {
    /// A transport or connection failure: transient, retried with backoff.
    Network(String),
    /// A malformed or contractually invalid message: fatal, never retried.
    Protocol(String),
    /// The peer acknowledged success but left out required data: fatal.
    DataLoss(String),
    /// A failure returned by the user service from a lifecycle method.
    Service(String),
    /// A configuration value that cannot be used.
    InvalidConfig(String),
}

impl FlameError {
    /// Whether the error belongs to the transient class, which is retried in place.
    pub open spec fn spec_is_transient(&self) -> bool {
        self is Network
    }

    /// Whether the error is transient (retried) rather than fatal.
    pub fn is_transient(&self) -> (r: bool)
        ensures
            r == self.spec_is_transient(),
    {
        match self {
            FlameError::Network(_) => true,
            _ => false,
        }
    }

    /// The message carried by the error.
    pub fn message(&self) -> (r: &String)
        ensures
            r == self.spec_message(),
    {
        match self {
            FlameError::Network(m) => m,
            FlameError::Protocol(m) => m,
            FlameError::DataLoss(m) => m,
            FlameError::Service(m) => m,
            FlameError::InvalidConfig(m) => m,
        }
    }

    pub open spec fn spec_message(&self) -> &String {
        match self {
            FlameError::Network(m) => m,
            FlameError::Protocol(m) => m,
            FlameError::DataLoss(m) => m,
            FlameError::Service(m) => m,
            FlameError::InvalidConfig(m) => m,
        }
    }
}

} // verus!
