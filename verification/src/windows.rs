//! The consent-verifier platform component: availability and verification
//! results of the native consent dialog mapped onto the portable status and
//! taxonomy, the vault operations this platform never implements, and the
//! decision core of the best-effort helper that nudges the credential
//! dialog into the foreground.

use vstd::prelude::*;

use crate::models::{AuthOptions, BiometryType, DataOptions, DataResponse, GetDataOptions,
    SetDataOptions, Status};
use crate::taxonomy::{BiometryError, ErrorCode};

verus! {

/// What the native consent verifier reports when asked whether it can run.
#[derive(Clone, Copy, Debug, PartialEq, Eq, Structural)]
pub enum HelloAvailability {
    Available,
    DeviceNotPresent,
    NotConfiguredForUser,
    DisabledByPolicy,
    DeviceBusy,
    /// Any availability value this mapping does not know.
    Other,
}

/// One availability check of the consent verifier: its answer, or the
/// native message of the call that failed before producing one.
#[derive(Clone, Debug)]
pub enum HelloCheck {
    Resolved(HelloAvailability),
    CheckFailed(String),
}

/// What the native consent dialog reports when a verification completes.
#[derive(Clone, Copy, Debug, PartialEq, Eq, Structural)]
pub enum HelloVerification {
    Verified,
    DeviceBusy,
    DeviceNotPresent,
    DisabledByPolicy,
    NotConfiguredForUser,
    Canceled,
    RetriesExhausted,
    /// Any verification value this mapping does not know.
    Other,
}

/// One verification request: the dialog's result, or the native message of
/// the call that failed before any dialog appeared.
#[derive(Clone, Debug)]
pub enum HelloCall {
    Completed(HelloVerification),
    LaunchFailed(String),
}

/// The taxonomy code the status query reports for each unavailable answer.
pub open spec fn spec_hello_status_code(a: HelloAvailability) -> ErrorCode {
    match a {
        HelloAvailability::Available => ErrorCode::Unknown,  // not reported: available
        HelloAvailability::DeviceNotPresent => ErrorCode::BiometryNotAvailable,
        HelloAvailability::NotConfiguredForUser => ErrorCode::BiometryNotEnrolled,
        HelloAvailability::DisabledByPolicy => ErrorCode::BiometryNotAvailable,
        HelloAvailability::DeviceBusy => ErrorCode::SystemCancel,
        HelloAvailability::Other => ErrorCode::BiometryNotAvailable,
    }
}

/// The consent-verifier platform component. It keeps no state: the native
/// verifier is consulted afresh on every call, and this platform has no
/// secure vault.
pub struct Biometry {}

impl Biometry {
    pub fn new() -> Biometry {
        Biometry {  }
    }

    /// The availability query. Never fails: a check that could not even run
    /// is folded into `is_available = false` with its native message and the
    /// `internalError` code; every resolved answer maps as
    /// [`spec_hello_status_code`] states. An available verifier reports the
    /// auto/unspecified modality — the native answer does not name one.
    pub fn status(&self, check: &HelloCheck) -> (r: Status)
        ensures
            r.is_available == (check matches HelloCheck::Resolved(HelloAvailability::Available)),
            check matches HelloCheck::Resolved(a) ==> (if a == HelloAvailability::Available {
                r.biometry_type == BiometryType::Auto && r.error is None && r.error_code is None
            } else {
                r.biometry_type == BiometryType::NoBiometry && r.error is Some && (
                r.error_code matches Some(c) && c@ == spec_hello_status_code(*a).spec_name())
            }),
            check matches HelloCheck::CheckFailed(m) ==> (r.biometry_type
                == BiometryType::NoBiometry && (r.error matches Some(e) && e@ == m@) && (
            r.error_code matches Some(c) && c@ == ErrorCode::InternalError.spec_name())),
            r.wf(),
    {
        match check {
            HelloCheck::Resolved(HelloAvailability::Available) => Status {
                is_available: true,
                biometry_type: BiometryType::Auto,
                error: None,
                error_code: None,
            },
            HelloCheck::Resolved(HelloAvailability::DeviceNotPresent) => Status {
                is_available: false,
                biometry_type: BiometryType::NoBiometry,
                error: Some("no biometric device was found".to_owned()),
                error_code: Some(ErrorCode::BiometryNotAvailable.name().to_owned()),
            },
            HelloCheck::Resolved(HelloAvailability::NotConfiguredForUser) => Status {
                is_available: false,
                biometry_type: BiometryType::NoBiometry,
                error: Some("biometric authentication is not configured".to_owned()),
                error_code: Some(ErrorCode::BiometryNotEnrolled.name().to_owned()),
            },
            HelloCheck::Resolved(HelloAvailability::DisabledByPolicy) => Status {
                is_available: false,
                biometry_type: BiometryType::NoBiometry,
                error: Some("biometric authentication is disabled by policy".to_owned()),
                error_code: Some(ErrorCode::BiometryNotAvailable.name().to_owned()),
            },
            HelloCheck::Resolved(HelloAvailability::DeviceBusy) => Status {
                is_available: false,
                biometry_type: BiometryType::NoBiometry,
                error: Some("the biometric device is busy".to_owned()),
                error_code: Some(ErrorCode::SystemCancel.name().to_owned()),
            },
            HelloCheck::Resolved(HelloAvailability::Other) => Status {
                is_available: false,
                biometry_type: BiometryType::NoBiometry,
                error: Some("the availability answer was not recognized".to_owned()),
                error_code: Some(ErrorCode::BiometryNotAvailable.name().to_owned()),
            },
            HelloCheck::CheckFailed(m) => Status {
                is_available: false,
                biometry_type: BiometryType::NoBiometry,
                error: Some(m.clone()),
                error_code: Some(ErrorCode::InternalError.name().to_owned()),
            },
        }
    }

    /// One interactive verification through the native consent dialog. The
    /// customization options are accepted and ignored: this platform honors
    /// none of them. Success only for a verified user; every other dialog
    /// result and a failed launch map onto exactly one taxonomy entry.
    pub fn authenticate(&self, _reason: &str, _options: &AuthOptions, call: HelloCall) -> (r:
        Result<(), BiometryError>)
        ensures
            (r is Ok) == (call matches HelloCall::Completed(HelloVerification::Verified)),
            call matches HelloCall::LaunchFailed(m) ==> (r matches Err(e) && e.code
                == ErrorCode::InternalError && e.message@ == m@),
            call matches HelloCall::Completed(v) ==> (v != HelloVerification::Verified ==> (
            r matches Err(e) && e.code == spec_hello_verification_code(v) && e.wf())),
    {
        match call {
            HelloCall::LaunchFailed(m) => Err(
                BiometryError::new(ErrorCode::InternalError, m.as_str()),
            ),
            HelloCall::Completed(HelloVerification::Verified) => Ok(()),
            HelloCall::Completed(HelloVerification::DeviceBusy) => Err(
                BiometryError::new(ErrorCode::SystemCancel, "the biometric device is busy"),
            ),
            HelloCall::Completed(HelloVerification::DeviceNotPresent) => Err(
                BiometryError::new(
                    ErrorCode::BiometryNotAvailable,
                    "no biometric device was found",
                ),
            ),
            HelloCall::Completed(HelloVerification::DisabledByPolicy) => Err(
                BiometryError::new(
                    ErrorCode::BiometryNotAvailable,
                    "biometric authentication is disabled by policy",
                ),
            ),
            HelloCall::Completed(HelloVerification::NotConfiguredForUser) => Err(
                BiometryError::new(
                    ErrorCode::BiometryNotEnrolled,
                    "biometric authentication is not configured for the user",
                ),
            ),
            HelloCall::Completed(HelloVerification::Canceled) => Err(
                BiometryError::new(ErrorCode::UserCancel, "the user cancelled the verification"),
            ),
            HelloCall::Completed(HelloVerification::RetriesExhausted) => Err(
                BiometryError::new(ErrorCode::BiometryLockout, "too many failed attempts"),
            ),
            HelloCall::Completed(HelloVerification::Other) => Err(
                BiometryError::new(ErrorCode::AuthenticationFailed, "the verification failed"),
            ),
        }
    }

    /// The vault is never implemented on this platform: answered verbatim,
    /// without attempting any native call.
    pub fn has_data(&self, _options: &DataOptions) -> (r: Result<bool, BiometryError>)
        ensures
            r matches Err(e) && e.code == ErrorCode::NotSupported && e.message@
                == "the credential vault is not supported on this platform"@,
    {
        Err(not_supported())
    }

    /// The vault is never implemented on this platform: answered verbatim,
    /// without attempting any native call.
    pub fn get_data(&self, _options: &GetDataOptions) -> (r: Result<DataResponse, BiometryError>)
        ensures
            r matches Err(e) && e.code == ErrorCode::NotSupported && e.message@
                == "the credential vault is not supported on this platform"@,
    {
        Err(not_supported())
    }

    /// The vault is never implemented on this platform: answered verbatim,
    /// without attempting any native call.
    pub fn set_data(&self, _options: &SetDataOptions) -> (r: Result<(), BiometryError>)
        ensures
            r matches Err(e) && e.code == ErrorCode::NotSupported && e.message@
                == "the credential vault is not supported on this platform"@,
    {
        Err(not_supported())
    }

    /// The vault is never implemented on this platform: answered verbatim,
    /// without attempting any native call.
    pub fn remove_data(&self, _options: &DataOptions) -> (r: Result<(), BiometryError>)
        ensures
            r matches Err(e) && e.code == ErrorCode::NotSupported && e.message@
                == "the credential vault is not supported on this platform"@,
    {
        Err(not_supported())
    }
}

/// The taxonomy code each completed but unverified dialog result maps to.
pub open spec fn spec_hello_verification_code(v: HelloVerification) -> ErrorCode {
    match v {
        HelloVerification::Verified => ErrorCode::Unknown,  // not reported: success
        HelloVerification::DeviceBusy => ErrorCode::SystemCancel,
        HelloVerification::DeviceNotPresent => ErrorCode::BiometryNotAvailable,
        HelloVerification::DisabledByPolicy => ErrorCode::BiometryNotAvailable,
        HelloVerification::NotConfiguredForUser => ErrorCode::BiometryNotEnrolled,
        HelloVerification::Canceled => ErrorCode::UserCancel,
        HelloVerification::RetriesExhausted => ErrorCode::BiometryLockout,
        HelloVerification::Other => ErrorCode::AuthenticationFailed,
    }
}

fn not_supported() -> (r: BiometryError)
    ensures
        r.code == ErrorCode::NotSupported,
        r.message@ == "the credential vault is not supported on this platform"@,
        r.wf(),
{
    BiometryError::new(
        ErrorCode::NotSupported,
        "the credential vault is not supported on this platform",
    )
}

/// What the dialog-focus helper does after one foreground-raise attempt.
#[derive(Clone, Copy, Debug, PartialEq, Eq, Structural)]
pub enum NudgeAction {
    /// Give up or be content: the dialog was found, or the budget is spent.
    Stop,
    /// Sleep for the fixed delay and try once more.
    RetryAfterDelay,
}

/// The decision core of the best-effort helper that brings the native
/// credential dialog to the foreground: a bounded number of attempts on a
/// fixed interval, stopping early once the dialog was found. It holds no
/// shared state with the authentication call and its outcome is discarded;
/// only the attempt budget is decided here.
pub struct FocusNudger {
    remaining: u32,
}

impl FocusNudger {
    /// How many further attempts the helper may still make.
    pub closed spec fn attempts_left(self) -> u32 {
        self.remaining
    }

    /// A helper with a budget of `retries` attempts.
    pub fn new(retries: u32) -> (r: Self)
        ensures
            r.attempts_left() == retries,
    {
        FocusNudger { remaining: retries }
    }

    /// Decides what follows one attempt that either found the dialog or did
    /// not. The helper stops exactly when the dialog was found or the budget
    /// is spent; every retry strictly shrinks the budget, so the helper
    /// makes at most its budget of attempts.
    pub fn next_action(&mut self, found: bool) -> (r: NudgeAction)
        ensures
            (r is Stop) == (found || old(self).attempts_left() == 0),
            r is RetryAfterDelay ==> final(self).attempts_left() == old(self).attempts_left() - 1,
            final(self).attempts_left() <= old(self).attempts_left(),
    {
        if found || self.remaining == 0 {
            NudgeAction::Stop
        } else {
            self.remaining = self.remaining - 1;
            NudgeAction::RetryAfterDelay
        }
    }
}

} // verus!
