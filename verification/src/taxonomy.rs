//! The shared error taxonomy: one portable, closed set of error codes that
//! every platform variant maps its native failures onto. No raw native code
//! ever crosses the component boundary; a caller branches on these codes
//! alone.

use vstd::prelude::*;

verus! {

/// A portable error code. Every native error or status value of every
/// platform is mapped many-to-one onto this closed set.
#[derive(Clone, Copy, Debug, PartialEq, Eq, Structural)]
pub enum ErrorCode {
    /// The application dismissed the prompt.
    AppCancel,
    /// Generic verification failure (for example, no match).
    AuthenticationFailed,
    InvalidContext,
    NotInteractive,
    PasscodeNotSet,
    SystemCancel,
    /// The user cancelled the prompt.
    UserCancel,
    /// The user chose the fallback path.
    UserFallback,
    BiometryLockout,
    BiometryNotAvailable,
    BiometryNotEnrolled,
    /// The vault holds no entry under the requested key.
    ItemNotFound,
    /// Interaction was needed but the call disallowed prompting.
    AuthenticationRequired,
    /// A native store failure; the error carries the native status.
    KeychainError,
    /// The store answered success but returned no payload.
    DataError,
    /// This layer failed to construct a native request.
    InternalError,
    /// The operation is never implemented on this platform.
    NotSupported,
    /// An unmapped native code.
    Unknown,
}

impl ErrorCode {
    /// The stable wire name of this code.
    pub open spec fn spec_name(self) -> Seq<char> {
        match self {
            ErrorCode::AppCancel => "appCancel"@,
            ErrorCode::AuthenticationFailed => "authenticationFailed"@,
            ErrorCode::InvalidContext => "invalidContext"@,
            ErrorCode::NotInteractive => "notInteractive"@,
            ErrorCode::PasscodeNotSet => "passcodeNotSet"@,
            ErrorCode::SystemCancel => "systemCancel"@,
            ErrorCode::UserCancel => "userCancel"@,
            ErrorCode::UserFallback => "userFallback"@,
            ErrorCode::BiometryLockout => "biometryLockout"@,
            ErrorCode::BiometryNotAvailable => "biometryNotAvailable"@,
            ErrorCode::BiometryNotEnrolled => "biometryNotEnrolled"@,
            ErrorCode::ItemNotFound => "itemNotFound"@,
            ErrorCode::AuthenticationRequired => "authenticationRequired"@,
            ErrorCode::KeychainError => "keychainError"@,
            ErrorCode::DataError => "dataError"@,
            ErrorCode::InternalError => "internalError"@,
            ErrorCode::NotSupported => "notSupported"@,
            ErrorCode::Unknown => "unknown"@,
        }
    }

    /// The stable wire name of this code, as callers see it.
    pub fn name(&self) -> (r: &'static str)
        ensures
            r@ == self.spec_name(),
    {
        match self {
            ErrorCode::AppCancel => "appCancel",
            ErrorCode::AuthenticationFailed => "authenticationFailed",
            ErrorCode::InvalidContext => "invalidContext",
            ErrorCode::NotInteractive => "notInteractive",
            ErrorCode::PasscodeNotSet => "passcodeNotSet",
            ErrorCode::SystemCancel => "systemCancel",
            ErrorCode::UserCancel => "userCancel",
            ErrorCode::UserFallback => "userFallback",
            ErrorCode::BiometryLockout => "biometryLockout",
            ErrorCode::BiometryNotAvailable => "biometryNotAvailable",
            ErrorCode::BiometryNotEnrolled => "biometryNotEnrolled",
            ErrorCode::ItemNotFound => "itemNotFound",
            ErrorCode::AuthenticationRequired => "authenticationRequired",
            ErrorCode::KeychainError => "keychainError",
            ErrorCode::DataError => "dataError",
            ErrorCode::InternalError => "internalError",
            ErrorCode::NotSupported => "notSupported",
            ErrorCode::Unknown => "unknown",
        }
    }
}

/// One mapped failure: a portable code, a human-readable message, and — for
/// store failures — the native status the code was mapped from.
#[derive(Clone, Debug)]
pub struct BiometryError {
    pub code: ErrorCode,
    pub message: String,
    /// The native status a `KeychainError` carries; `None` elsewhere.
    pub native_status: Option<i64>,
}

impl BiometryError {
    /// Whether this error is well formed: only a native-store failure
    /// carries a native status.
    pub open spec fn wf(self) -> bool {
        self.native_status is Some ==> self.code == ErrorCode::KeychainError
    }

    /// A mapped failure without a native status.
    pub fn new(code: ErrorCode, message: &str) -> (r: Self)
        requires
            code != ErrorCode::KeychainError,
        ensures
            r.code == code,
            r.message@ == message@,
            r.native_status is None,
            r.wf(),
    {
        BiometryError { code, message: message.to_owned(), native_status: None }
    }

    /// A native-store failure, carrying the unmapped native status.
    pub fn keychain(message: &str, status: i64) -> (r: Self)
        ensures
            r.code == ErrorCode::KeychainError,
            r.message@ == message@,
            r.native_status == Some(status),
            r.wf(),
    {
        BiometryError {
            code: ErrorCode::KeychainError,
            message: message.to_owned(),
            native_status: Some(status),
        }
    }
}

} // verus!
