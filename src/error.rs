use vstd::prelude::*;

verus! {

/// Everything that can go wrong while routing or running a completion.
#[derive(Debug, Clone, PartialEq, Eq)]
pub enum RunnerError {
    /// The model identifier is not `"<provider>:<model>"` with a non-blank model.
    InvalidFormat,
    /// The provider tag is not one of the supported tags.
    UnknownProvider(String),
    /// The environment lacks the named variable.
    MissingCredential(String),
    /// No executor is registered for the resolved provider.
    ExecutorMissing,
    /// The provider could not be reached.
    BackendUnavailable(String),
    /// The provider answered with a structured error.
    BackendRejected(String),
    /// The receiving end of the output sink is gone.
    SinkClosed,
}

} // verus!
