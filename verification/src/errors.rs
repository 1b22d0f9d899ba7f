//! Error taxonomy of the engine.
//!
//! Every external-facing operation reports failure through one of these
//! enums; nothing in the core aborts the process. Each error renders to a
//! user-facing display string through its `message` method.

use vstd::prelude::*;

verus! {

/// Failure of the external cost-reporting tool invocation.
#[derive(Debug, Clone, PartialEq, Eq)]
pub enum CcusageError {
    /// No executable could be resolved: a user-actionable setup error.
    NotFound,
    /// The tool ran but exited non-zero, or could not be spawned.
    ExecutionError(String),
    /// The tool's output was not the expected JSON report.
    ParseError(String),
}

/// Failure of the remote usage endpoint fetch.
#[derive(Debug, Clone, PartialEq, Eq)]
pub enum UsageError {
    /// Transport failure or a non-success HTTP status other than 401/403.
    RequestError(String),
    /// HTTP 401 or 403: the stored token is stale and re-auth is needed.
    Unauthorized,
    /// The response body could not be decoded.
    ParseError(String),
}

/// Failure of the credential lookup.
#[derive(Debug, Clone, PartialEq, Eq)]
pub enum KeychainError {
    /// No credential entry exists: expected before first authentication.
    NotFound,
    /// The stored blob did not contain the nested OAuth access token.
    ParseError(String),
    /// The platform secret store itself failed.
    CommandError(String),
}

impl CcusageError {
    /// The display string of this error.
    pub open spec fn message_spec(&self) -> Seq<char> {
        match self {
            CcusageError::NotFound => "ccusage not found. Install with: npm install -g ccusage"@,
            CcusageError::ExecutionError(s) => "ccusage failed: "@ + s@,
            CcusageError::ParseError(s) => "Failed to parse output: "@ + s@,
        }
    }

    pub fn message(&self) -> (r: String)
        ensures
            r@ == self.message_spec(),
    {
        match self {
            CcusageError::NotFound => String::from_str(
                "ccusage not found. Install with: npm install -g ccusage",
            ),
            CcusageError::ExecutionError(s) => String::from_str("ccusage failed: ").concat(
                s.as_str(),
            ),
            CcusageError::ParseError(s) => String::from_str("Failed to parse output: ").concat(
                s.as_str(),
            ),
        }
    }
}

impl UsageError {
    /// The display string of this error.
    pub open spec fn message_spec(&self) -> Seq<char> {
        match self {
            UsageError::RequestError(s) => "HTTP request failed: "@ + s@,
            UsageError::Unauthorized => "Unauthorized - log in again to refresh your session"@,
            UsageError::ParseError(s) => "Failed to parse response: "@ + s@,
        }
    }

    pub fn message(&self) -> (r: String)
        ensures
            r@ == self.message_spec(),
    {
        match self {
            UsageError::RequestError(s) => String::from_str("HTTP request failed: ").concat(
                s.as_str(),
            ),
            UsageError::Unauthorized => String::from_str(
                "Unauthorized - log in again to refresh your session",
            ),
            UsageError::ParseError(s) => String::from_str("Failed to parse response: ").concat(
                s.as_str(),
            ),
        }
    }
}

impl KeychainError {
    /// The display string of this error.
    pub open spec fn message_spec(&self) -> Seq<char> {
        match self {
            KeychainError::NotFound => "Keychain entry not found. Log in first to authenticate."@,
            KeychainError::ParseError(s) => "Failed to parse keychain data: "@ + s@,
            KeychainError::CommandError(s) => "Command failed: "@ + s@,
        }
    }

    pub fn message(&self) -> (r: String)
        ensures
            r@ == self.message_spec(),
    {
        match self {
            KeychainError::NotFound => String::from_str(
                "Keychain entry not found. Log in first to authenticate.",
            ),
            KeychainError::ParseError(s) => String::from_str(
                "Failed to parse keychain data: ",
            ).concat(s.as_str()),
            KeychainError::CommandError(s) => String::from_str("Command failed: ").concat(
                s.as_str(),
            ),
        }
    }
}

} // verus!
