use biometry::local_auth::{
    begin_authenticate, finish_authenticate, la_error_code, resolve_status, AuthBegin,
    AuthOutcome, AvailabilityProbe, BiometryCheck, NativeError, Policy, LA_APP_CANCEL,
    LA_AUTHENTICATION_FAILED, LA_BIOMETRY_LOCKOUT, LA_BIOMETRY_NOT_AVAILABLE,
    LA_BIOMETRY_NOT_ENROLLED, LA_BIOMETRY_TYPE_FACE_ID, LA_BIOMETRY_TYPE_NONE,
    LA_BIOMETRY_TYPE_TOUCH_ID, LA_INVALID_CONTEXT, LA_NOT_INTERACTIVE, LA_PASSCODE_NOT_SET,
    LA_SYSTEM_CANCEL, LA_USER_CANCEL, LA_USER_FALLBACK,
};
use biometry::macos::Biometry;
use biometry::models::{AuthOptions, BiometryType};
use biometry::rendezvous::Rendezvous;
use biometry::taxonomy::ErrorCode;

fn native(code: i64, message: &str) -> NativeError {
    NativeError {
        code,
        message: message.to_string(),
    }
}

fn biometric_only() -> AuthOptions {
    AuthOptions::default()
}

fn with_credential() -> AuthOptions {
    let mut o = AuthOptions::default();
    o.allow_device_credential = Some(true);
    o
}

#[test]
fn status_with_face_biometry_enrolled() {
    let b = Biometry::new();
    let probe = AvailabilityProbe {
        can_evaluate: BiometryCheck::Available,
        modality: LA_BIOMETRY_TYPE_FACE_ID,
    };
    let s = b.status(&probe);
    assert!(s.is_available);
    assert_eq!(s.biometry_type.wire_code(), BiometryType::FaceID.wire_code());
    assert!(s.error.is_none());
    assert!(s.error_code.is_none());
}

#[test]
fn status_folds_native_failure_without_failing() {
    let probe = AvailabilityProbe {
        can_evaluate: BiometryCheck::Unavailable(native(
            LA_BIOMETRY_NOT_ENROLLED,
            "no identities are enrolled",
        )),
        modality: LA_BIOMETRY_TYPE_NONE,
    };
    let s = resolve_status(&probe);
    assert!(!s.is_available);
    assert_eq!(s.biometry_type.wire_code(), 0);
    assert_eq!(s.error.as_deref(), Some("no identities are enrolled"));
    assert_eq!(s.error_code.as_deref(), Some("biometryNotEnrolled"));
}

#[test]
fn status_reports_touch_modality() {
    let probe = AvailabilityProbe {
        can_evaluate: BiometryCheck::Available,
        modality: LA_BIOMETRY_TYPE_TOUCH_ID,
    };
    let s = resolve_status(&probe);
    assert_eq!(s.biometry_type.wire_code(), 1);
}

#[test]
fn unenrolled_device_fails_with_specific_code() {
    // empty reason, biometric-only, nothing enrolled: the specific code,
    // never a generic or unknown one
    let b = Biometry::new();
    let check =
        BiometryCheck::Unavailable(native(LA_BIOMETRY_NOT_ENROLLED, "nothing is enrolled"));
    let e = b
        .authenticate("", &biometric_only(), &check, AuthOutcome::Verified)
        .unwrap_err();
    assert_eq!(e.code, ErrorCode::BiometryNotEnrolled);

    let check =
        BiometryCheck::Unavailable(native(LA_BIOMETRY_NOT_AVAILABLE, "no sensor is usable"));
    let e = b
        .authenticate("", &biometric_only(), &check, AuthOutcome::Verified)
        .unwrap_err();
    assert_eq!(e.code, ErrorCode::BiometryNotAvailable);
}

#[test]
fn precheck_failure_rejects_before_any_prompt() {
    // with biometry unavailable and fallback disallowed, no prompt is ever
    // issued: the decision is a rejection, and the result ignores whatever
    // the native outcome would have been
    let check =
        BiometryCheck::Unavailable(native(LA_BIOMETRY_NOT_AVAILABLE, "no sensor is usable"));
    match begin_authenticate(&check, "login", &biometric_only()) {
        AuthBegin::Reject(e) => assert_eq!(e.code, ErrorCode::BiometryNotAvailable),
        AuthBegin::Prompt(_) => panic!("a prompt must not be attempted"),
    }
    let b = Biometry::new();
    let verified = b
        .authenticate("login", &biometric_only(), &check, AuthOutcome::Verified)
        .unwrap_err();
    let canceled = b
        .authenticate(
            "login",
            &biometric_only(),
            &check,
            AuthOutcome::Failed(Some(native(LA_USER_CANCEL, "canceled"))),
        )
        .unwrap_err();
    assert_eq!(verified.code, canceled.code);
    assert_eq!(verified.code, ErrorCode::BiometryNotAvailable);
}

#[test]
fn allowing_the_device_credential_prompts_despite_failed_check() {
    let check = BiometryCheck::Unavailable(native(LA_BIOMETRY_NOT_ENROLLED, "nothing enrolled"));
    match begin_authenticate(&check, "login", &with_credential()) {
        AuthBegin::Prompt(p) => {
            assert_eq!(p.policy.native_value(), 2);
            assert_eq!(p.reason, "login");
            assert_eq!(p.reuse_duration_secs, 0);
        }
        AuthBegin::Reject(_) => panic!("the credential fallback must prompt"),
    }
}

#[test]
fn prompt_selects_the_biometric_policy_and_zero_reuse() {
    match begin_authenticate(&BiometryCheck::Available, "login", &biometric_only()) {
        AuthBegin::Prompt(p) => {
            assert_eq!(p.policy.native_value(), 1);
            assert!(matches!(p.policy, Policy::Biometrics));
            assert_eq!(p.reuse_duration_secs, 0);
            assert!(p.cancel_title.is_none());
            assert!(p.fallback_title.is_none());
        }
        AuthBegin::Reject(_) => panic!("an available device must prompt"),
    }
}

#[test]
fn prompt_carries_the_requested_titles() {
    let mut o = AuthOptions::default();
    o.cancel_title = Some("Give up".to_string());
    o.fallback_title = Some("Use passcode".to_string());
    match begin_authenticate(&BiometryCheck::Available, "login", &o) {
        AuthBegin::Prompt(p) => {
            assert_eq!(p.cancel_title.as_deref(), Some("Give up"));
            assert_eq!(p.fallback_title.as_deref(), Some("Use passcode"));
        }
        AuthBegin::Reject(_) => panic!("an available device must prompt"),
    }
}

#[test]
fn verification_outcomes_map_to_terminal_results() {
    assert!(finish_authenticate(AuthOutcome::Verified).is_ok());
    let e = finish_authenticate(AuthOutcome::Failed(Some(native(LA_USER_CANCEL, "canceled"))))
        .unwrap_err();
    assert_eq!(e.code, ErrorCode::UserCancel);
    assert_eq!(e.message, "canceled");
    let e = finish_authenticate(AuthOutcome::Failed(None)).unwrap_err();
    assert_eq!(e.code, ErrorCode::AuthenticationFailed);
    let e = finish_authenticate(AuthOutcome::ReplyLost).unwrap_err();
    assert_eq!(e.code, ErrorCode::AuthenticationFailed);
}

#[test]
fn native_code_mapping_is_exhaustive() {
    assert_eq!(la_error_code(LA_APP_CANCEL), ErrorCode::AppCancel);
    assert_eq!(
        la_error_code(LA_AUTHENTICATION_FAILED),
        ErrorCode::AuthenticationFailed
    );
    assert_eq!(la_error_code(LA_INVALID_CONTEXT), ErrorCode::InvalidContext);
    assert_eq!(la_error_code(LA_NOT_INTERACTIVE), ErrorCode::NotInteractive);
    assert_eq!(la_error_code(LA_PASSCODE_NOT_SET), ErrorCode::PasscodeNotSet);
    assert_eq!(la_error_code(LA_SYSTEM_CANCEL), ErrorCode::SystemCancel);
    assert_eq!(la_error_code(LA_USER_CANCEL), ErrorCode::UserCancel);
    assert_eq!(la_error_code(LA_USER_FALLBACK), ErrorCode::UserFallback);
    assert_eq!(la_error_code(LA_BIOMETRY_LOCKOUT), ErrorCode::BiometryLockout);
    assert_eq!(
        la_error_code(LA_BIOMETRY_NOT_AVAILABLE),
        ErrorCode::BiometryNotAvailable
    );
    assert_eq!(
        la_error_code(LA_BIOMETRY_NOT_ENROLLED),
        ErrorCode::BiometryNotEnrolled
    );
    // anything unlisted resolves to Unknown, never an unhandled case
    assert_eq!(la_error_code(-11), ErrorCode::Unknown);
    assert_eq!(la_error_code(0), ErrorCode::Unknown);
    assert_eq!(la_error_code(7), ErrorCode::Unknown);
}

#[test]
fn user_cancel_delivers_exactly_one_result() {
    // the user cancels: the callback offers the cancellation, a straggling
    // second offer is refused, and the caller takes exactly the first value
    let mut rv: Rendezvous<Result<(), i64>> = Rendezvous::new();
    assert!(!rv.is_settled());
    assert!(rv.offer(Err(LA_USER_CANCEL)));
    assert!(rv.is_settled());
    assert!(!rv.offer(Ok(())));
    let delivered = rv.take().expect("one result must be delivered");
    assert_eq!(delivered, Err(LA_USER_CANCEL));
    assert!(rv.take().is_none());

    let e = finish_authenticate(AuthOutcome::Failed(Some(native(
        LA_USER_CANCEL,
        "the user tapped cancel",
    ))))
    .unwrap_err();
    assert_eq!(e.code, ErrorCode::UserCancel);
    assert_eq!(e.code.name(), "userCancel");
}
