//! Failures that the gateway reports to its callers.

use vstd::prelude::*;

verus! {

/// A named, described failure.
#[derive(Debug, Clone, PartialEq, Eq)]
pub enum GatewayError {
    /// No session has the given identifier.
    SessionNotFound(String),
    /// The default session cannot be closed.
    ProtectedSession(String),
    /// No element matches the selector.
    ElementNotFound(String),
    /// The browser could not allocate a new isolated context.
    ContextCreation(String),
    /// The file to upload does not exist.
    FileNotFound(String),
    /// No saved state has the given name.
    StateNotFound(String),
    /// No extension endpoint is connected.
    NotConnected,
    /// The extension endpoint did not answer in time.
    RequestTimeout,
    /// The extension endpoint answered with an error.
    Extension(String),
    /// A required request parameter is absent or has the wrong type.
    MissingParameter(String),
    /// The method name is not one the gateway serves.
    UnknownMethod(String),
    /// The browser connection or its protocol failed.
    Protocol(String),
}

} // verus!
