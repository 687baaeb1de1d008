//! Errors of the agent.
use vstd::prelude::*;

verus! {

/// What went wrong, with a message where one is given.
#[derive(Debug, Clone, PartialEq, Eq)]
pub enum AgentError {
    /// Feature is not implemented yet.
    NotImplementedError,
    /// Failed to bootstrap.
    BootstrapError(String),
    /// Input/output error.
    IoError(String),
    /// Network error.
    NetworkError(String),
    /// URL fetching error.
    FetchError(String),
    /// Parsing error.
    ParseError(String),
    /// Unknown collector type.
    InvalidCollectorError(String),
    /// Invalid configuration.
    ConfigurationError(String),
    /// Packet format error.
    FrameError(String),
    /// Operation timed out.
    TimeOutError,
    /// Internal error.
    InternalError(String),
    /// Feature disabled at build time.
    FeatureDisabledError(String),
    /// Serialization error.
    SerializationError(String),
    /// Formatting error.
    FmtError,
}

/// Result of an agent operation.
pub type AgentResult<T> = Result<T, AgentError>;

} // verus!
