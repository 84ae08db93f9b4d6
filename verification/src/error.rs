//! The failure taxonomy shared by every component.

use vstd::prelude::*;

verus! {

/// Why a storage port refused or failed a call.
#[derive(Clone, Copy, Debug, PartialEq, Eq, Structural)]
pub enum StorageError {
    /// The backend could not be reached or failed while serving the call.
    Unavailable,
    /// The call would have broken a constraint the backend enforces.
    Constraint,
}

/// Every way an operation of the core can fail.
#[derive(Clone, Copy, Debug, PartialEq, Eq, Structural)]
pub enum Error {
    /// The registry was configured inconsistently; fatal to startup.
    ConfigurationError,
    /// No authentication method is registered under the requested name.
    UnknownMethod,
    /// Typed retrieval found no plugin under the requested name.
    PluginNotFound,
    /// Typed retrieval found a plugin of another capability.
    PluginTypeMismatch,
    /// The presented credentials do not identify a user.
    InvalidCredentials,
    /// The state handed back by the transport differs from the one issued.
    CsrfMismatch,
    /// The identity token does not carry the nonce of this login attempt.
    NonceMismatch,
    /// The flow state or challenge is unknown, consumed or expired.
    ReplayedFlow,
    /// The identity provider rejected the exchange or did not answer in time.
    ProviderError,
    /// A passkey reported a sign counter that did not advance.
    PossibleCloneDetected,
    /// The session exists but its expiry has passed.
    SessionExpired,
    /// No session is stored under the presented id.
    SessionNotFound,
    /// The identity is already registered.
    DuplicateIdentity,
    /// A storage port failed; the cause is carried unchanged.
    Storage(StorageError),
}

impl Error {
    /// A short, stable description of the failure.
    pub fn message(&self) -> (text: &'static str)
        ensures
            text@ == self.spec_message()@,
    {
        match self {
            Error::ConfigurationError => "configuration error",
            Error::UnknownMethod => "unknown authentication method",
            Error::PluginNotFound => "plugin not found",
            Error::PluginTypeMismatch => "plugin is of another type",
            Error::InvalidCredentials => "invalid credentials",
            Error::CsrfMismatch => "csrf state mismatch",
            Error::NonceMismatch => "nonce mismatch",
            Error::ReplayedFlow => "flow state not found",
            Error::ProviderError => "identity provider error",
            Error::PossibleCloneDetected => "possible cloned authenticator",
            Error::SessionExpired => "session expired",
            Error::SessionNotFound => "session not found",
            Error::DuplicateIdentity => "identity already registered",
            Error::Storage(StorageError::Unavailable) => "storage unavailable",
            Error::Storage(StorageError::Constraint) => "storage constraint violated",
        }
    }

    /// The text that [`Error::message`] returns.
    pub open spec fn spec_message(&self) -> &'static str {
        match self {
            Error::ConfigurationError => "configuration error",
            Error::UnknownMethod => "unknown authentication method",
            Error::PluginNotFound => "plugin not found",
            Error::PluginTypeMismatch => "plugin is of another type",
            Error::InvalidCredentials => "invalid credentials",
            Error::CsrfMismatch => "csrf state mismatch",
            Error::NonceMismatch => "nonce mismatch",
            Error::ReplayedFlow => "flow state not found",
            Error::ProviderError => "identity provider error",
            Error::PossibleCloneDetected => "possible cloned authenticator",
            Error::SessionExpired => "session expired",
            Error::SessionNotFound => "session not found",
            Error::DuplicateIdentity => "identity already registered",
            Error::Storage(StorageError::Unavailable) => "storage unavailable",
            Error::Storage(StorageError::Constraint) => "storage constraint violated",
        }
    }
}

impl Error {
    /// Wraps the failure of a storage port.
    pub fn from_storage(e: StorageError) -> (wrapped: Error)
        ensures
            wrapped == Error::Storage(e),
    {
        Error::Storage(e)
    }
}

/// The call failed because a backend could not serve it.
pub open spec fn is_unavailable<T>(r: Result<T, Error>) -> bool {
    r matches Err(Error::Storage(StorageError::Unavailable))
}

/// The call failed with exactly `e`.
pub open spec fn fails_with<T>(r: Result<T, Error>, e: Error) -> bool {
    match r {
        Ok(_) => false,
        Err(got) => got == e,
    }
}

} // verus!
