use biometry::keychain::{
    add_request, delete_query, get_data_outcome, has_data_outcome, has_data_query,
    remove_data_outcome, set_data_step, set_data_update_outcome, update_request, AccessControl,
    Accessibility, ItemClass, LookupInteraction, SetDataStep, SEC_DUPLICATE_ITEM,
    SEC_INTERACTION_NOT_ALLOWED, SEC_ITEM_NOT_FOUND, SEC_SUCCESS, SEC_USER_CANCELED,
};
use biometry::macos::{Biometry, PresenceGate};
use biometry::models::{DataOptions, GetDataOptions, SetDataOptions};
use biometry::taxonomy::ErrorCode;

fn key(domain: &str, name: &str) -> DataOptions {
    DataOptions {
        domain: domain.to_string(),
        name: name.to_string(),
    }
}

fn set(domain: &str, name: &str, data: &str) -> SetDataOptions {
    SetDataOptions {
        domain: domain.to_string(),
        name: name.to_string(),
        data: data.to_string(),
    }
}

fn get(domain: &str, name: &str) -> GetDataOptions {
    GetDataOptions {
        domain: domain.to_string(),
        name: name.to_string(),
        reason: "test access".to_string(),
        cancel_title: None,
    }
}

#[test]
fn set_then_get_round_trip() {
    let mut b = Biometry::new();
    b.set_data(&set("app", "token", "hunter2")).unwrap();
    let resp = b.get_data(&get("app", "token"), PresenceGate::Verified).unwrap();
    assert_eq!(resp.data, "hunter2");
    assert_eq!(resp.domain, "app");
    assert_eq!(resp.name, "token");
}

#[test]
fn has_data_create_destroy_cycle() {
    let mut b = Biometry::new();
    assert_eq!(b.has_data(&key("app", "token")).unwrap(), false);
    b.set_data(&set("app", "token", "v")).unwrap();
    assert_eq!(b.has_data(&key("app", "token")).unwrap(), true);
    b.remove_data(&key("app", "token")).unwrap();
    assert_eq!(b.has_data(&key("app", "token")).unwrap(), false);
}

#[test]
fn remove_absent_key_is_success() {
    let mut b = Biometry::new();
    let r = b.remove_data(&key("app", "never-written"));
    assert!(r.is_ok());
    // and again, after a full create/destroy cycle
    b.set_data(&set("app", "x", "v")).unwrap();
    b.remove_data(&key("app", "x")).unwrap();
    assert!(b.remove_data(&key("app", "x")).is_ok());
}

#[test]
fn set_twice_returns_latest_value_only() {
    let mut b = Biometry::new();
    b.set_data(&set("app", "token", "first")).unwrap();
    b.set_data(&set("app", "token", "second")).unwrap();
    let resp = b.get_data(&get("app", "token"), PresenceGate::Verified).unwrap();
    assert_eq!(resp.data, "second");
    // still exactly one item: removing once empties the key
    b.remove_data(&key("app", "token")).unwrap();
    assert_eq!(b.has_data(&key("app", "token")).unwrap(), false);
}

#[test]
fn has_data_never_prompts() {
    // has_data takes no presence gate at all; even while a read of the same
    // gated item would require interaction, existence is answered silently.
    let mut b = Biometry::new();
    b.set_data(&set("app", "token", "v")).unwrap();
    assert_eq!(b.has_data(&key("app", "token")).unwrap(), true);
    let denied = b.get_data(&get("app", "token"), PresenceGate::InteractionDisallowed);
    assert_eq!(denied.unwrap_err().code, ErrorCode::AuthenticationRequired);
    // the existence answer is unaffected
    assert_eq!(b.has_data(&key("app", "token")).unwrap(), true);
}

#[test]
fn get_absent_key_is_item_not_found() {
    let b = Biometry::new();
    let e = b.get_data(&get("app", "missing"), PresenceGate::Verified).unwrap_err();
    assert_eq!(e.code, ErrorCode::ItemNotFound);
}

#[test]
fn get_canceled_maps_to_user_cancel() {
    let mut b = Biometry::new();
    b.set_data(&set("app", "token", "v")).unwrap();
    let e = b.get_data(&get("app", "token"), PresenceGate::Canceled).unwrap_err();
    assert_eq!(e.code, ErrorCode::UserCancel);
}

#[test]
fn empty_strings_are_valid_keys() {
    let mut b = Biometry::new();
    b.set_data(&set("", "", "")).unwrap();
    assert_eq!(b.has_data(&key("", "")).unwrap(), true);
    let resp = b.get_data(&get("", ""), PresenceGate::Verified).unwrap();
    assert_eq!(resp.data, "");
}

#[test]
fn same_name_under_different_domains_are_distinct() {
    let mut b = Biometry::new();
    b.set_data(&set("alpha", "token", "a")).unwrap();
    b.set_data(&set("beta", "token", "b")).unwrap();
    assert_eq!(
        b.get_data(&get("alpha", "token"), PresenceGate::Verified).unwrap().data,
        "a"
    );
    assert_eq!(
        b.get_data(&get("beta", "token"), PresenceGate::Verified).unwrap().data,
        "b"
    );
    b.remove_data(&key("alpha", "token")).unwrap();
    assert_eq!(b.has_data(&key("alpha", "token")).unwrap(), false);
    assert_eq!(b.has_data(&key("beta", "token")).unwrap(), true);
}

#[test]
fn existence_lookup_forbids_prompting() {
    let q = has_data_query(&key("app", "token"));
    assert!(matches!(q.interaction, LookupInteraction::FailWithoutPrompt));
    assert!(matches!(q.class, ItemClass::GenericPassword));
    assert!(q.match_limit_one);
    assert!(!q.return_data);
    assert_eq!(q.service, "app");
    assert_eq!(q.account, "token");
}

#[test]
fn read_query_prompts_with_the_callers_reason() {
    let q = biometry::keychain::get_data_query(&get("app", "token"));
    assert!(q.return_data);
    assert!(q.match_limit_one);
    match q.interaction {
        LookupInteraction::PromptWith(reason) => assert_eq!(reason, "test access"),
        LookupInteraction::FailWithoutPrompt => panic!("a read must offer a prompt"),
    }
}

#[test]
fn writes_bind_user_presence_and_device_lock() {
    let a = add_request(&set("app", "token", "v"));
    assert!(matches!(a.access_control, AccessControl::UserPresence));
    assert!(matches!(
        a.accessibility,
        Accessibility::WhenUnlockedThisDeviceOnly
    ));
    assert_eq!(a.data, "v");
    let u = update_request(&set("app", "token", "w"));
    assert!(matches!(u.access_control, AccessControl::UserPresence));
    assert!(matches!(
        u.accessibility,
        Accessibility::WhenUnlockedThisDeviceOnly
    ));
    assert_eq!(u.data, "w");
    let d = delete_query(&key("app", "token"));
    assert_eq!(d.service, "app");
    assert_eq!(d.account, "token");
}

#[test]
fn has_data_outcome_statuses() {
    assert_eq!(has_data_outcome(SEC_SUCCESS).unwrap(), true);
    assert_eq!(has_data_outcome(SEC_INTERACTION_NOT_ALLOWED).unwrap(), true);
    assert_eq!(has_data_outcome(SEC_ITEM_NOT_FOUND).unwrap(), false);
    let e = has_data_outcome(-36).unwrap_err();
    assert_eq!(e.code, ErrorCode::KeychainError);
    assert_eq!(e.native_status, Some(-36));
}

#[test]
fn get_data_outcome_success_without_payload_is_data_error() {
    let e = get_data_outcome(SEC_SUCCESS, None, "d".to_string(), "n".to_string()).unwrap_err();
    assert_eq!(e.code, ErrorCode::DataError);
}

#[test]
fn get_data_outcome_maps_each_status() {
    let ok = get_data_outcome(
        SEC_SUCCESS,
        Some("v".to_string()),
        "d".to_string(),
        "n".to_string(),
    )
    .unwrap();
    assert_eq!(ok.data, "v");
    assert_eq!(
        get_data_outcome(SEC_ITEM_NOT_FOUND, None, "d".to_string(), "n".to_string())
            .unwrap_err()
            .code,
        ErrorCode::ItemNotFound
    );
    assert_eq!(
        get_data_outcome(SEC_USER_CANCELED, None, "d".to_string(), "n".to_string())
            .unwrap_err()
            .code,
        ErrorCode::UserCancel
    );
    assert_eq!(
        get_data_outcome(
            SEC_INTERACTION_NOT_ALLOWED,
            None,
            "d".to_string(),
            "n".to_string()
        )
        .unwrap_err()
        .code,
        ErrorCode::AuthenticationRequired
    );
    let e = get_data_outcome(-50, None, "d".to_string(), "n".to_string()).unwrap_err();
    assert_eq!(e.code, ErrorCode::KeychainError);
    assert_eq!(e.native_status, Some(-50));
}

#[test]
fn set_data_step_and_update_statuses() {
    assert!(matches!(set_data_step(SEC_SUCCESS), SetDataStep::Done));
    assert!(matches!(
        set_data_step(SEC_DUPLICATE_ITEM),
        SetDataStep::NeedsUpdate
    ));
    match set_data_step(-61) {
        SetDataStep::Failed(e) => {
            assert_eq!(e.code, ErrorCode::KeychainError);
            assert_eq!(e.native_status, Some(-61));
        }
        _ => panic!("an unexpected status must fail"),
    }
    assert!(set_data_update_outcome(SEC_SUCCESS).is_ok());
    assert_eq!(
        set_data_update_outcome(-61).unwrap_err().code,
        ErrorCode::KeychainError
    );
}

#[test]
fn remove_data_outcome_statuses() {
    assert!(remove_data_outcome(SEC_SUCCESS).is_ok());
    assert!(remove_data_outcome(SEC_ITEM_NOT_FOUND).is_ok());
    let e = remove_data_outcome(-61).unwrap_err();
    assert_eq!(e.code, ErrorCode::KeychainError);
    assert_eq!(e.native_status, Some(-61));
}
