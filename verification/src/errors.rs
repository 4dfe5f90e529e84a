//! The errors of the failover system.

use vstd::prelude::*;
use vstd::string::StringExecFns;

verus! {

/// What can go wrong while paths are watched and routes are changed.
#[derive(Debug, PartialEq, Eq)]
pub enum FailoverError {
    /// Interface could not be found
    InterfaceNotFound(String),
    /// Gateway could not be found for the specified interface
    GatewayNotFound(String),
    /// Command execution failed
    CommandExecution(String),
    /// Route modification failed
    RouteModificationFailed(String),
    /// WireGuard interface restart failed
    WireGuardRestartFailed(String),
    /// Network connectivity check failed
    ConnectivityCheckFailed(String),
    /// Configuration is invalid
    InvalidConfiguration(String),
    /// Operating system is not supported
    UnsupportedOS,
    /// Insufficient permissions
    InsufficientPermissions,
    /// An input or output error, by its description
    IOError(String),
    /// Unknown error
    Unknown(String),
}

/// Shorthand result type for failover operations
pub type FailoverResult<T> = Result<T, FailoverError>;

impl FailoverError {
    /// The text that describes the error: what kind it is, and what it holds.
    pub open spec fn text(self) -> Seq<char> {
        match self {
            FailoverError::InterfaceNotFound(s) => "Interface not found: "@ + s@,
            FailoverError::GatewayNotFound(s) => "Gateway not found for interface: "@ + s@,
            FailoverError::CommandExecution(s) => "Failed to execute command: "@ + s@,
            FailoverError::RouteModificationFailed(s) => "Route modification failed: "@ + s@,
            FailoverError::WireGuardRestartFailed(s) => "WireGuard interface restart failed: "@
                + s@,
            FailoverError::ConnectivityCheckFailed(s) => "Network connectivity check failed: "@
                + s@,
            FailoverError::InvalidConfiguration(s) => "Invalid configuration: "@ + s@,
            FailoverError::UnsupportedOS => "Unsupported operating system"@,
            FailoverError::InsufficientPermissions =>
                "Insufficient permissions (try running as root)"@,
            FailoverError::IOError(s) => "IO error: "@ + s@,
            FailoverError::Unknown(s) => "Unknown error: "@ + s@,
        }
    }

    /// What the error holds, without the words for its kind; for a kind that
    /// holds nothing, the words for the kind.
    pub open spec fn detail_text(self) -> Seq<char> {
        match self {
            FailoverError::InterfaceNotFound(s) => s@,
            FailoverError::GatewayNotFound(s) => s@,
            FailoverError::CommandExecution(s) => s@,
            FailoverError::RouteModificationFailed(s) => s@,
            FailoverError::WireGuardRestartFailed(s) => s@,
            FailoverError::ConnectivityCheckFailed(s) => s@,
            FailoverError::InvalidConfiguration(s) => s@,
            FailoverError::UnsupportedOS => "Unsupported operating system"@,
            FailoverError::InsufficientPermissions =>
                "Insufficient permissions (try running as root)"@,
            FailoverError::IOError(s) => s@,
            FailoverError::Unknown(s) => s@,
        }
    }

    /// What the error holds, without the words for its kind.
    pub fn detail(&self) -> (r: String)
        ensures
            r@ == self.detail_text(),
    {
        match self {
            FailoverError::InterfaceNotFound(s) => s.clone(),
            FailoverError::GatewayNotFound(s) => s.clone(),
            FailoverError::CommandExecution(s) => s.clone(),
            FailoverError::RouteModificationFailed(s) => s.clone(),
            FailoverError::WireGuardRestartFailed(s) => s.clone(),
            FailoverError::ConnectivityCheckFailed(s) => s.clone(),
            FailoverError::InvalidConfiguration(s) => s.clone(),
            FailoverError::UnsupportedOS => "Unsupported operating system".to_owned(),
            FailoverError::InsufficientPermissions =>
                "Insufficient permissions (try running as root)".to_owned(),
            FailoverError::IOError(s) => s.clone(),
            FailoverError::Unknown(s) => s.clone(),
        }
    }

    /// The error as a line for a person to read.
    pub fn message(&self) -> (r: String)
        ensures
            r@ == self.text(),
    {
        match self {
            FailoverError::InterfaceNotFound(s) => "Interface not found: ".to_owned().concat(
                s.as_str(),
            ),
            FailoverError::GatewayNotFound(s) => "Gateway not found for interface: ".to_owned()
                .concat(s.as_str()),
            FailoverError::CommandExecution(s) => "Failed to execute command: ".to_owned().concat(
                s.as_str(),
            ),
            FailoverError::RouteModificationFailed(s) => "Route modification failed: ".to_owned()
                .concat(s.as_str()),
            FailoverError::WireGuardRestartFailed(s) =>
                "WireGuard interface restart failed: ".to_owned().concat(s.as_str()),
            FailoverError::ConnectivityCheckFailed(s) =>
                "Network connectivity check failed: ".to_owned().concat(s.as_str()),
            FailoverError::InvalidConfiguration(s) => "Invalid configuration: ".to_owned().concat(
                s.as_str(),
            ),
            FailoverError::UnsupportedOS => "Unsupported operating system".to_owned(),
            FailoverError::InsufficientPermissions =>
                "Insufficient permissions (try running as root)".to_owned(),
            FailoverError::IOError(s) => "IO error: ".to_owned().concat(s.as_str()),
            FailoverError::Unknown(s) => "Unknown error: ".to_owned().concat(s.as_str()),
        }
    }
}

impl Clone for FailoverError {
    fn clone(&self) -> (r: Self)
        ensures
            r == *self,
    {
        match self {
            FailoverError::InterfaceNotFound(s) => FailoverError::InterfaceNotFound(s.clone()),
            FailoverError::GatewayNotFound(s) => FailoverError::GatewayNotFound(s.clone()),
            FailoverError::CommandExecution(s) => FailoverError::CommandExecution(s.clone()),
            FailoverError::RouteModificationFailed(s) => FailoverError::RouteModificationFailed(
                s.clone(),
            ),
            FailoverError::WireGuardRestartFailed(s) => FailoverError::WireGuardRestartFailed(
                s.clone(),
            ),
            FailoverError::ConnectivityCheckFailed(s) => FailoverError::ConnectivityCheckFailed(
                s.clone(),
            ),
            FailoverError::InvalidConfiguration(s) => FailoverError::InvalidConfiguration(
                s.clone(),
            ),
            FailoverError::UnsupportedOS => FailoverError::UnsupportedOS,
            FailoverError::InsufficientPermissions => FailoverError::InsufficientPermissions,
            FailoverError::IOError(s) => FailoverError::IOError(s.clone()),
            FailoverError::Unknown(s) => FailoverError::Unknown(s.clone()),
        }
    }
}

} // verus!
