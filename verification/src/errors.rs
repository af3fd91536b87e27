//! Error taxonomy of the registry and of the policy-control surface.
//!
//! OS status codes are translated into this taxonomy at the boundary; no
//! error here is fatal to the process.

use vstd::prelude::*;

verus! {

/// Failure of a privileged policy operation or of a device-level request.
#[derive(Debug, Clone, Copy, PartialEq, Eq, Structural)]
pub enum PolicyError {
    /// The caller lacks the rights for the operation.
    AccessDenied,
    /// The referenced device id is stale or unknown.
    DeviceNotFound,
    /// The undocumented policy surface could not be obtained on this OS
    /// build; the feature is absent, not broken.
    InterfaceUnavailable,
    /// The audio engine refused the requested format combination.
    FormatRejected,
    /// A volume value outside the valid range, rejected before any OS call.
    OutOfRange,
}

/// Failure of a session-level request.
#[derive(Debug, Clone, Copy, PartialEq, Eq, Structural)]
pub enum SessionError {
    /// A volume value outside the valid range, rejected before any OS call.
    OutOfRange,
    /// The underlying session has already been torn down concurrently.
    SessionGone,
}

impl PolicyError {
    /// Short human-readable name of the error.
    pub fn describe(&self) -> (r: &'static str)
        ensures
            r@ == self.spec_describe(),
    {
        match self {
            PolicyError::AccessDenied => "access denied",
            PolicyError::DeviceNotFound => "device not found",
            PolicyError::InterfaceUnavailable => "policy interface unavailable",
            PolicyError::FormatRejected => "format rejected",
            PolicyError::OutOfRange => "volume out of range",
        }
    }

    /// The name `describe` returns.
    pub open spec fn spec_describe(&self) -> Seq<char> {
        match self {
            PolicyError::AccessDenied => "access denied"@,
            PolicyError::DeviceNotFound => "device not found"@,
            PolicyError::InterfaceUnavailable => "policy interface unavailable"@,
            PolicyError::FormatRejected => "format rejected"@,
            PolicyError::OutOfRange => "volume out of range"@,
        }
    }
}

impl SessionError {
    /// Short human-readable name of the error.
    pub fn describe(&self) -> (r: &'static str)
        ensures
            r@ == self.spec_describe(),
    {
        match self {
            SessionError::OutOfRange => "volume out of range",
            SessionError::SessionGone => "session gone",
        }
    }

    /// The name `describe` returns.
    pub open spec fn spec_describe(&self) -> Seq<char> {
        match self {
            SessionError::OutOfRange => "volume out of range"@,
            SessionError::SessionGone => "session gone"@,
        }
    }
}

/// Status code returned by the ordinal-dispatched policy surface: zero for
/// success, a negative value for failure.  The known failure codes map to the
/// taxonomy; an unknown failure is reported as the surface being unavailable,
/// since the surface is versioned and its exact behavior is best-effort
/// across OS builds.
pub open spec fn spec_policy_error_from_status(status: i32) -> PolicyError {
    if status == -2147024891i32 {
        // E_ACCESSDENIED (0x80070005)
        PolicyError::AccessDenied
    } else if status == -2147023728i32 {
        // HRESULT_FROM_WIN32(ERROR_NOT_FOUND) (0x80070490)
        PolicyError::DeviceNotFound
    } else if status == -2004287480i32 {
        // AUDCLNT_E_UNSUPPORTED_FORMAT (0x88890008)
        PolicyError::FormatRejected
    } else {
        // Among others: REGDB_E_CLASSNOTREG (0x80040154) and E_NOINTERFACE
        // (0x80004002), returned when the surface cannot be obtained.
        PolicyError::InterfaceUnavailable
    }
}

/// Translates a raw policy status code into the error taxonomy.
pub fn policy_error_from_status(status: i32) -> (r: PolicyError)
    ensures
        r == spec_policy_error_from_status(status),
{
    if status == -2147024891i32 {
        PolicyError::AccessDenied
    } else if status == -2147023728i32 {
        PolicyError::DeviceNotFound
    } else if status == -2004287480i32 {
        PolicyError::FormatRejected
    } else {
        PolicyError::InterfaceUnavailable
    }
}

} // verus!
