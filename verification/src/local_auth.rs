//! The local-authentication flow: the native error codes the
//! authentication context reports, their mapping onto the shared taxonomy,
//! the availability resolver, and the two decision points of one interactive
//! authentication — whether to prompt at all, and what the asynchronous
//! verification outcome means.
//!
//! The native context is owned by the operating system; the unverified shell
//! creates it, evaluates the prompt a [`begin_authenticate`] decision asks
//! for, and feeds the callback's result back through
//! [`finish_authenticate`].

use vstd::prelude::*;

use crate::models::{AuthOptions, BiometryType, Status};
use crate::taxonomy::{BiometryError, ErrorCode};

verus! {

/// Native context error: the user failed to provide valid credentials.
pub const LA_AUTHENTICATION_FAILED: i64 = -1;

/// Native context error: the user tapped the cancel button.
pub const LA_USER_CANCEL: i64 = -2;

/// Native context error: the user tapped the fallback button.
pub const LA_USER_FALLBACK: i64 = -3;

/// Native context error: the system cancelled the prompt.
pub const LA_SYSTEM_CANCEL: i64 = -4;

/// Native context error: no passcode is set on the device.
pub const LA_PASSCODE_NOT_SET: i64 = -5;

/// Native context error: biometry is not available on the device.
pub const LA_BIOMETRY_NOT_AVAILABLE: i64 = -6;

/// Native context error: biometry has no enrolled identities.
pub const LA_BIOMETRY_NOT_ENROLLED: i64 = -7;

/// Native context error: too many failed attempts; biometry is locked out.
pub const LA_BIOMETRY_LOCKOUT: i64 = -8;

/// Native context error: the application cancelled the prompt.
pub const LA_APP_CANCEL: i64 = -9;

/// Native context error: the context was invalidated.
pub const LA_INVALID_CONTEXT: i64 = -10;

/// Native context error: showing UI was forbidden for this context.
pub const LA_NOT_INTERACTIVE: i64 = -1004;

/// The native modality indicator: no biometry.
pub const LA_BIOMETRY_TYPE_NONE: i64 = 0;

/// The native modality indicator: a touch-based sensor.
pub const LA_BIOMETRY_TYPE_TOUCH_ID: i64 = 1;

/// The native modality indicator: a face-based sensor.
pub const LA_BIOMETRY_TYPE_FACE_ID: i64 = 2;

/// A native error as the authentication context reports it: a numeric code
/// and a localized description.
#[derive(Clone, Debug)]
pub struct NativeError {
    pub code: i64,
    pub message: String,
}

/// The answer to "can the biometrics-only policy be evaluated right now":
/// yes, or no together with the native error saying why not.
#[derive(Clone, Debug)]
pub enum BiometryCheck {
    Available,
    Unavailable(NativeError),
}

/// One interrogation of the native context: the policy check and the raw
/// modality indicator, exactly as the context reported them.
#[derive(Clone, Debug)]
pub struct AvailabilityProbe {
    pub can_evaluate: BiometryCheck,
    /// The raw native modality value; see the `LA_BIOMETRY_TYPE_` constants.
    pub modality: i64,
}

/// The many-to-one mapping of native context error codes onto the shared
/// taxonomy. Every unlisted code resolves to `Unknown`, never to an
/// unhandled case.
pub open spec fn spec_la_error_code(code: int) -> ErrorCode {
    if code == LA_APP_CANCEL {
        ErrorCode::AppCancel
    } else if code == LA_AUTHENTICATION_FAILED {
        ErrorCode::AuthenticationFailed
    } else if code == LA_INVALID_CONTEXT {
        ErrorCode::InvalidContext
    } else if code == LA_NOT_INTERACTIVE {
        ErrorCode::NotInteractive
    } else if code == LA_PASSCODE_NOT_SET {
        ErrorCode::PasscodeNotSet
    } else if code == LA_SYSTEM_CANCEL {
        ErrorCode::SystemCancel
    } else if code == LA_USER_CANCEL {
        ErrorCode::UserCancel
    } else if code == LA_USER_FALLBACK {
        ErrorCode::UserFallback
    } else if code == LA_BIOMETRY_LOCKOUT {
        ErrorCode::BiometryLockout
    } else if code == LA_BIOMETRY_NOT_AVAILABLE {
        ErrorCode::BiometryNotAvailable
    } else if code == LA_BIOMETRY_NOT_ENROLLED {
        ErrorCode::BiometryNotEnrolled
    } else {
        ErrorCode::Unknown
    }
}

/// Maps one native context error code onto the shared taxonomy.
pub fn la_error_code(code: i64) -> (r: ErrorCode)
    ensures
        r == spec_la_error_code(code as int),
{
    if code == LA_APP_CANCEL {
        ErrorCode::AppCancel
    } else if code == LA_AUTHENTICATION_FAILED {
        ErrorCode::AuthenticationFailed
    } else if code == LA_INVALID_CONTEXT {
        ErrorCode::InvalidContext
    } else if code == LA_NOT_INTERACTIVE {
        ErrorCode::NotInteractive
    } else if code == LA_PASSCODE_NOT_SET {
        ErrorCode::PasscodeNotSet
    } else if code == LA_SYSTEM_CANCEL {
        ErrorCode::SystemCancel
    } else if code == LA_USER_CANCEL {
        ErrorCode::UserCancel
    } else if code == LA_USER_FALLBACK {
        ErrorCode::UserFallback
    } else if code == LA_BIOMETRY_LOCKOUT {
        ErrorCode::BiometryLockout
    } else if code == LA_BIOMETRY_NOT_AVAILABLE {
        ErrorCode::BiometryNotAvailable
    } else if code == LA_BIOMETRY_NOT_ENROLLED {
        ErrorCode::BiometryNotEnrolled
    } else {
        ErrorCode::Unknown
    }
}

/// The mapping of the native modality indicator onto the portable modality.
/// Values the mapping does not know — including newer sensor kinds — resolve
/// to no modality.
pub open spec fn spec_biometry_kind(raw: int) -> BiometryType {
    if raw == LA_BIOMETRY_TYPE_TOUCH_ID {
        BiometryType::TouchID
    } else if raw == LA_BIOMETRY_TYPE_FACE_ID {
        BiometryType::FaceID
    } else {
        BiometryType::NoBiometry
    }
}

/// Maps the native modality indicator onto the portable modality.
pub fn biometry_kind(raw: i64) -> (r: BiometryType)
    ensures
        r == spec_biometry_kind(raw as int),
{
    if raw == LA_BIOMETRY_TYPE_TOUCH_ID {
        BiometryType::TouchID
    } else if raw == LA_BIOMETRY_TYPE_FACE_ID {
        BiometryType::FaceID
    } else {
        BiometryType::NoBiometry
    }
}

/// Resolves one availability probe into the portable status record. This
/// never fails: a failed native check is folded into `is_available = false`
/// with the native message and the mapped taxonomy code alongside.
pub fn resolve_status(probe: &AvailabilityProbe) -> (r: Status)
    ensures
        r.is_available == (probe.can_evaluate is Available),
        r.biometry_type == spec_biometry_kind(probe.modality as int),
        probe.can_evaluate is Available ==> r.error is None && r.error_code is None,
        probe.can_evaluate matches BiometryCheck::Unavailable(e) ==> (r.error matches Some(m)
            && m@ == e.message@) && (r.error_code matches Some(c) && c@ == spec_la_error_code(
            e.code as int,
        ).spec_name()),
        r.wf(),
{
    match &probe.can_evaluate {
        BiometryCheck::Available => Status {
            is_available: true,
            biometry_type: biometry_kind(probe.modality),
            error: None,
            error_code: None,
        },
        BiometryCheck::Unavailable(e) => Status {
            is_available: false,
            biometry_type: biometry_kind(probe.modality),
            error: Some(e.message.clone()),
            error_code: Some(la_error_code(e.code).name().to_owned()),
        },
    }
}

/// The native policy an authentication evaluates: biometrics alone, or
/// biometrics with the device credential as an alternative.
#[derive(Clone, Copy, Debug, PartialEq, Eq, Structural)]
pub enum Policy {
    Biometrics,
    BiometricsOrCredential,
}

impl Policy {
    /// The native value of this policy.
    pub open spec fn spec_native_value(self) -> u64 {
        match self {
            Policy::Biometrics => 1,
            Policy::BiometricsOrCredential => 2,
        }
    }

    /// The native value of this policy.
    pub fn native_value(&self) -> (r: u64)
        ensures
            r == self.spec_native_value(),
    {
        match self {
            Policy::Biometrics => 1,
            Policy::BiometricsOrCredential => 2,
        }
    }
}

/// Everything one native verification prompt is configured with. Absent
/// titles leave the platform defaults untouched.
#[derive(Clone, Debug)]
pub struct AuthPrompt {
    pub policy: Policy,
    pub reason: String,
    pub cancel_title: Option<String>,
    pub fallback_title: Option<String>,
    /// How many seconds a previous verification may be reused. Always zero:
    /// every call performs a fresh check.
    pub reuse_duration_secs: u64,
}

/// The first decision of one authentication: reject immediately, or issue
/// exactly one native prompt configured as stated.
#[derive(Clone, Debug)]
pub enum AuthBegin {
    Reject(BiometryError),
    Prompt(AuthPrompt),
}

/// Two optional texts agree: both absent, or both present and equal.
pub open spec fn same_opt_text(a: Option<String>, b: Option<String>) -> bool {
    match (a, b) {
        (Option::None, Option::None) => true,
        (Some(x), Some(y)) => x@ == y@,
        _ => false,
    }
}

/// Whether one authentication request is rejected before any native prompt
/// is attempted: the biometric check failed and falling back to the device
/// credential was disallowed.
pub open spec fn spec_rejects_before_prompt(check: BiometryCheck, options: AuthOptions) -> bool {
    check is Unavailable && !options.spec_allows_device_credential()
}

/// The policy one authentication request selects when it does prompt.
pub open spec fn spec_selected_policy(options: AuthOptions) -> Policy {
    if options.spec_allows_device_credential() {
        Policy::BiometricsOrCredential
    } else {
        Policy::Biometrics
    }
}

/// The first decision point of `authenticate`: re-check availability of the
/// pure-biometric policy, and when it is unavailable while falling back is
/// disallowed, fail immediately with the mapped native error — the native
/// prompt is never attempted. Otherwise configure exactly one prompt:
/// the requested titles where present, zero reuse of earlier verifications,
/// and the policy the request selects.
pub fn begin_authenticate(check: &BiometryCheck, reason: &str, options: &AuthOptions) -> (r:
    AuthBegin)
    ensures
        (r is Reject) == spec_rejects_before_prompt(*check, *options),
        !options.spec_allows_device_credential() ==> (check matches BiometryCheck::Unavailable(e)
            ==> (r matches AuthBegin::Reject(err) && err.code == spec_la_error_code(e.code as int)
            && err.message@ == e.message@ && err.wf())),
        r matches AuthBegin::Prompt(p) ==> p.policy == spec_selected_policy(*options) && p.reason@
            == reason@ && p.reuse_duration_secs == 0 && same_opt_text(
            p.cancel_title,
            options.cancel_title,
        ) && same_opt_text(p.fallback_title, options.fallback_title),
{
    let allow = options.allows_device_credential();
    match check {
        BiometryCheck::Unavailable(e) if !allow => {
            AuthBegin::Reject(BiometryError::new(la_error_code(e.code), e.message.as_str()))
        },
        _ => {
            let policy = if allow {
                Policy::BiometricsOrCredential
            } else {
                Policy::Biometrics
            };
            let cancel_title = match &options.cancel_title {
                Some(t) => Some(t.clone()),
                None => None,
            };
            let fallback_title = match &options.fallback_title {
                Some(t) => Some(t.clone()),
                None => None,
            };
            AuthBegin::Prompt(
                AuthPrompt {
                    policy,
                    reason: reason.to_owned(),
                    cancel_title,
                    fallback_title,
                    reuse_duration_secs: 0,
                },
            )
        },
    }
}

/// What the native verification primitive reported back through the one-shot
/// rendezvous — or that the rendezvous broke before any result arrived.
#[derive(Clone, Debug)]
pub enum AuthOutcome {
    /// The callback fired with success: the user was verified.
    Verified,
    /// The callback fired with failure, with the native error when one was
    /// supplied.
    Failed(Option<NativeError>),
    /// The rendezvous was dropped without a result ever being produced.
    ReplyLost,
}

/// The second decision point of `authenticate`: the terminal result for each
/// possible verification outcome. Success means the user was verified; every
/// failure is one mapped taxonomy entry, and a broken rendezvous surfaces as
/// a terminal authentication failure rather than a hang.
pub fn finish_authenticate(outcome: AuthOutcome) -> (r: Result<(), BiometryError>)
    ensures
        (r is Ok) == (outcome is Verified),
        outcome matches AuthOutcome::Failed(Some(e)) ==> (r matches Err(err) && err.code
            == spec_la_error_code(e.code as int) && err.message@ == e.message@),
        outcome matches AuthOutcome::Failed(ne) && ne is None ==> (r matches Err(err) && err.code
            == ErrorCode::AuthenticationFailed && err.message@
            == "the native callback reported failure without an error"@),
        outcome is ReplyLost ==> (r matches Err(err) && err.code == ErrorCode::AuthenticationFailed
            && err.message@ == "no authentication result was ever received"@),
        r matches Err(err) ==> err.wf(),
{
    match outcome {
        AuthOutcome::Verified => Ok(()),
        AuthOutcome::Failed(Some(e)) => Err(
            BiometryError::new(la_error_code(e.code), e.message.as_str()),
        ),
        AuthOutcome::Failed(None) => Err(
            BiometryError::new(
                ErrorCode::AuthenticationFailed,
                "the native callback reported failure without an error",
            ),
        ),
        AuthOutcome::ReplyLost => Err(
            BiometryError::new(
                ErrorCode::AuthenticationFailed,
                "no authentication result was ever received",
            ),
        ),
    }
}

/// The native error code a failed availability check carries.
pub open spec fn spec_check_code(check: BiometryCheck) -> int
    recommends
        check is Unavailable,
{
    match check {
        BiometryCheck::Available => 0,
        BiometryCheck::Unavailable(e) => e.code as int,
    }
}

/// The taxonomy code one whole authentication resolves to, from the
/// availability re-check, the request, and — only when a prompt is issued —
/// the verification outcome.
pub open spec fn spec_authenticate(
    check: BiometryCheck,
    options: AuthOptions,
    outcome: AuthOutcome,
) -> Result<(), ErrorCode> {
    if spec_rejects_before_prompt(check, options) {
        Err(spec_la_error_code(spec_check_code(check)))
    } else {
        match outcome {
            AuthOutcome::Verified => Ok(()),
            AuthOutcome::Failed(Some(e)) => Err(spec_la_error_code(e.code as int)),
            AuthOutcome::Failed(None) => Err(ErrorCode::AuthenticationFailed),
            AuthOutcome::ReplyLost => Err(ErrorCode::AuthenticationFailed),
        }
    }
}

/// A biometric-only request on a device whose biometric check failed is
/// decided before any native prompt: the result is the mapped code of the
/// check's native error, the same whatever verification outcome the native
/// subsystem could have produced — no prompt is consulted at all.
pub proof fn lemma_precheck_failure_ignores_outcome(
    check: BiometryCheck,
    options: AuthOptions,
    first: AuthOutcome,
    second: AuthOutcome,
)
    requires
        check is Unavailable,
        !options.spec_allows_device_credential(),
    ensures
        spec_authenticate(check, options, first) == spec_authenticate(check, options, second),
        spec_authenticate(check, options, first) == Err::<(), ErrorCode>(
            spec_la_error_code(spec_check_code(check)),
        ),
{
}

/// A device with no usable or no enrolled biometry fails its check with one
/// of two specific native codes; a biometric-only authentication on it then
/// fails with the matching specific taxonomy code — never a generic or
/// unknown one.
pub proof fn lemma_unenrolled_failure_is_specific(
    check: BiometryCheck,
    options: AuthOptions,
    outcome: AuthOutcome,
)
    requires
        check is Unavailable,
        spec_check_code(check) == LA_BIOMETRY_NOT_AVAILABLE || spec_check_code(check)
            == LA_BIOMETRY_NOT_ENROLLED,
        !options.spec_allows_device_credential(),
    ensures
        spec_check_code(check) == LA_BIOMETRY_NOT_AVAILABLE ==> spec_authenticate(
            check,
            options,
            outcome,
        ) == Err::<(), ErrorCode>(ErrorCode::BiometryNotAvailable),
        spec_check_code(check) == LA_BIOMETRY_NOT_ENROLLED ==> spec_authenticate(
            check,
            options,
            outcome,
        ) == Err::<(), ErrorCode>(ErrorCode::BiometryNotEnrolled),
        spec_authenticate(check, options, outcome) != Err::<(), ErrorCode>(ErrorCode::Unknown),
        spec_authenticate(check, options, outcome) != Err::<(), ErrorCode>(
            ErrorCode::AuthenticationFailed,
        ),
{
}

} // verus!
