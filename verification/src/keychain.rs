//! The native secure-store vocabulary of the keychain-backed vault: the
//! status codes the store answers with, the typed queries the vault issues
//! against it, and the interpretation of each answer.
//!
//! The store itself is owned by the operating system; the unverified shell
//! translates a [`LookupQuery`], [`AddRequest`], [`UpdateRequest`] or
//! [`DeleteQuery`] into the native attribute dictionary, performs the call,
//! and hands the resulting status code back to the interpreters here. Every
//! status is mapped to exactly one outcome; no call is retried.

use vstd::prelude::*;

use crate::models::{DataOptions, DataResponse, GetDataOptions, SetDataOptions};
use crate::taxonomy::{BiometryError, ErrorCode};

verus! {

/// The native store's "call succeeded" status.
pub const SEC_SUCCESS: i64 = 0;

/// The native store's "the user cancelled the presence check" status.
pub const SEC_USER_CANCELED: i64 = -128;

/// The native store's "an item under this key already exists" status.
pub const SEC_DUPLICATE_ITEM: i64 = -25299;

/// The native store's "no item matches this key" status.
pub const SEC_ITEM_NOT_FOUND: i64 = -25300;

/// The native store's "answering would require user interaction, which the
/// query disallowed" status.
pub const SEC_INTERACTION_NOT_ALLOWED: i64 = -25308;

/// The item class every vault query targets: one secret per
/// (service, account) pair.
#[derive(Clone, Copy, Debug, PartialEq, Eq, Structural)]
pub enum ItemClass {
    GenericPassword,
}

/// What the store may do when answering a lookup would require verifying
/// user presence.
#[derive(Clone, Debug)]
pub enum LookupInteraction {
    /// Fail fast with [`SEC_INTERACTION_NOT_ALLOWED`] rather than prompt.
    FailWithoutPrompt,
    /// Show the presence prompt, with this text as the stated reason.
    PromptWith(String),
}

/// The accessibility class every stored secret is bound to.
#[derive(Clone, Copy, Debug, PartialEq, Eq, Structural)]
pub enum Accessibility {
    /// Usable only while this device is unlocked; never migrated off-device.
    WhenUnlockedThisDeviceOnly,
}

/// The access-control object attached to every stored secret: the conditions
/// under which the store may release it.
#[derive(Clone, Copy, Debug, PartialEq, Eq, Structural)]
pub enum AccessControl {
    /// Release only after a fresh user-presence verification.
    UserPresence,
}

/// One lookup against the store, keyed by (class, service, account),
/// requesting at most one match.
#[derive(Clone, Debug)]
pub struct LookupQuery {
    pub class: ItemClass,
    pub service: String,
    pub account: String,
    pub match_limit_one: bool,
    /// Whether the secret payload itself is requested, rather than mere
    /// existence.
    pub return_data: bool,
    pub interaction: LookupInteraction,
}

/// One insert: the keyed payload together with the access-control object and
/// accessibility class it is bound to.
#[derive(Clone, Debug)]
pub struct AddRequest {
    pub class: ItemClass,
    pub service: String,
    pub account: String,
    pub data: String,
    pub access_control: AccessControl,
    pub accessibility: Accessibility,
}

/// One in-place update of an existing item. Payload, access control and
/// accessibility are always replaced together; a partial update is not
/// expressible.
#[derive(Clone, Debug)]
pub struct UpdateRequest {
    pub data: String,
    pub access_control: AccessControl,
    pub accessibility: Accessibility,
}

/// One delete, keyed by (class, service, account).
#[derive(Clone, Debug)]
pub struct DeleteQuery {
    pub class: ItemClass,
    pub service: String,
    pub account: String,
}

/// The existence query `has_data` issues: at most one match, no payload,
/// and — so that an existence test can never turn interactive — an explicit
/// fail-rather-than-prompt interaction mode.
pub fn has_data_query(options: &DataOptions) -> (q: LookupQuery)
    ensures
        q.class == ItemClass::GenericPassword,
        q.service@ == options.domain@,
        q.account@ == options.name@,
        q.match_limit_one,
        !q.return_data,
        q.interaction is FailWithoutPrompt,
{
    LookupQuery {
        class: ItemClass::GenericPassword,
        service: options.domain.clone(),
        account: options.name.clone(),
        match_limit_one: true,
        return_data: false,
        interaction: LookupInteraction::FailWithoutPrompt,
    }
}

/// The read query `get_data` issues: exactly one match, payload requested,
/// the caller's reason offered as the presence-prompt text.
pub fn get_data_query(options: &GetDataOptions) -> (q: LookupQuery)
    ensures
        q.class == ItemClass::GenericPassword,
        q.service@ == options.domain@,
        q.account@ == options.name@,
        q.match_limit_one,
        q.return_data,
        q.interaction matches LookupInteraction::PromptWith(p) && p@ == options.reason@,
{
    LookupQuery {
        class: ItemClass::GenericPassword,
        service: options.domain.clone(),
        account: options.name.clone(),
        match_limit_one: true,
        return_data: true,
        interaction: LookupInteraction::PromptWith(options.reason.clone()),
    }
}

/// The insert `set_data` first attempts: the payload bound to a freshly
/// constructed user-presence access control, usable only while this device
/// is unlocked.
pub fn add_request(options: &SetDataOptions) -> (q: AddRequest)
    ensures
        q.class == ItemClass::GenericPassword,
        q.service@ == options.domain@,
        q.account@ == options.name@,
        q.data@ == options.data@,
        q.access_control == AccessControl::UserPresence,
        q.accessibility == Accessibility::WhenUnlockedThisDeviceOnly,
{
    AddRequest {
        class: ItemClass::GenericPassword,
        service: options.domain.clone(),
        account: options.name.clone(),
        data: options.data.clone(),
        access_control: AccessControl::UserPresence,
        accessibility: Accessibility::WhenUnlockedThisDeviceOnly,
    }
}

/// The update `set_data` issues when the insert reports a duplicate:
/// payload, access control and accessibility replaced together.
pub fn update_request(options: &SetDataOptions) -> (q: UpdateRequest)
    ensures
        q.data@ == options.data@,
        q.access_control == AccessControl::UserPresence,
        q.accessibility == Accessibility::WhenUnlockedThisDeviceOnly,
{
    UpdateRequest {
        data: options.data.clone(),
        access_control: AccessControl::UserPresence,
        accessibility: Accessibility::WhenUnlockedThisDeviceOnly,
    }
}

/// The delete `remove_data` issues, keyed like every other vault call.
pub fn delete_query(options: &DataOptions) -> (q: DeleteQuery)
    ensures
        q.class == ItemClass::GenericPassword,
        q.service@ == options.domain@,
        q.account@ == options.name@,
{
    DeleteQuery {
        class: ItemClass::GenericPassword,
        service: options.domain.clone(),
        account: options.name.clone(),
    }
}

/// What `has_data` answers for each status of its existence lookup. A found
/// item and a "found but would need interaction" answer both mean the item
/// exists — existence is knowable without releasing the secret; only "not
/// found" means it does not.
pub fn has_data_outcome(status: i64) -> (r: Result<bool, BiometryError>)
    ensures
        status == SEC_SUCCESS || status == SEC_INTERACTION_NOT_ALLOWED ==> r == Ok::<
            bool,
            BiometryError,
        >(true),
        status == SEC_ITEM_NOT_FOUND ==> r == Ok::<bool, BiometryError>(false),
        !(status == SEC_SUCCESS || status == SEC_INTERACTION_NOT_ALLOWED || status
            == SEC_ITEM_NOT_FOUND) ==> (r matches Err(e) && e.code == ErrorCode::KeychainError
            && e.native_status == Some(status) && e.message@
            == "the secure store refused the existence lookup"@),
{
    if status == SEC_SUCCESS || status == SEC_INTERACTION_NOT_ALLOWED {
        Ok(true)
    } else if status == SEC_ITEM_NOT_FOUND {
        Ok(false)
    } else {
        Err(BiometryError::keychain("the secure store refused the existence lookup", status))
    }
}

/// What `get_data` returns for each status of its read, together with the
/// payload the store handed out (if any) and the echoed key.
pub fn get_data_outcome(status: i64, payload: Option<String>, domain: String, name: String) -> (r:
    Result<DataResponse, BiometryError>)
    ensures
        status == SEC_SUCCESS && payload is Some ==> (r matches Ok(resp) && resp.domain@ == domain@
            && resp.name@ == name@ && resp.data@ == payload.unwrap()@),
        status == SEC_SUCCESS && payload is None ==> (r matches Err(e) && e.code
            == ErrorCode::DataError && e.message@
            == "the secure store answered success but returned no payload"@),
        status == SEC_ITEM_NOT_FOUND ==> (r matches Err(e) && e.code == ErrorCode::ItemNotFound
            && e.message@ == "no secret is stored under this key"@),
        status == SEC_USER_CANCELED ==> (r matches Err(e) && e.code == ErrorCode::UserCancel
            && e.message@ == "the user cancelled the presence check"@),
        status == SEC_INTERACTION_NOT_ALLOWED ==> (r matches Err(e) && e.code
            == ErrorCode::AuthenticationRequired && e.message@
            == "authentication is required but interaction was disallowed"@),
        !(status == SEC_SUCCESS || status == SEC_ITEM_NOT_FOUND || status == SEC_USER_CANCELED
            || status == SEC_INTERACTION_NOT_ALLOWED) ==> (r matches Err(e) && e.code
            == ErrorCode::KeychainError && e.native_status == Some(status) && e.message@
            == "the secure store refused the read"@),
        r matches Err(e) ==> e.wf(),
{
    if status == SEC_SUCCESS {
        match payload {
            Some(data) => Ok(DataResponse { domain, name, data }),
            None => Err(
                BiometryError::new(
                    ErrorCode::DataError,
                    "the secure store answered success but returned no payload",
                ),
            ),
        }
    } else if status == SEC_ITEM_NOT_FOUND {
        Err(BiometryError::new(ErrorCode::ItemNotFound, "no secret is stored under this key"))
    } else if status == SEC_USER_CANCELED {
        Err(BiometryError::new(ErrorCode::UserCancel, "the user cancelled the presence check"))
    } else if status == SEC_INTERACTION_NOT_ALLOWED {
        Err(
            BiometryError::new(
                ErrorCode::AuthenticationRequired,
                "authentication is required but interaction was disallowed",
            ),
        )
    } else {
        Err(BiometryError::keychain("the secure store refused the read", status))
    }
}

/// The step `set_data` takes after its insert: done on success, an in-place
/// update when the key already holds an item, one mapped error otherwise.
#[derive(Clone, Debug)]
pub enum SetDataStep {
    Done,
    NeedsUpdate,
    Failed(BiometryError),
}

/// What follows the insert attempt of `set_data`, for each status.
pub fn set_data_step(status: i64) -> (r: SetDataStep)
    ensures
        status == SEC_SUCCESS ==> r is Done,
        status == SEC_DUPLICATE_ITEM ==> r is NeedsUpdate,
        !(status == SEC_SUCCESS || status == SEC_DUPLICATE_ITEM) ==> (r matches SetDataStep::Failed(
            e,
        ) && e.code == ErrorCode::KeychainError && e.native_status == Some(status) && e.message@
            == "the secure store refused the insert"@),
{
    if status == SEC_SUCCESS {
        SetDataStep::Done
    } else if status == SEC_DUPLICATE_ITEM {
        SetDataStep::NeedsUpdate
    } else {
        SetDataStep::Failed(BiometryError::keychain("the secure store refused the insert", status))
    }
}

/// What `set_data` returns for each status of the update that follows a
/// duplicate insert.
pub fn set_data_update_outcome(status: i64) -> (r: Result<(), BiometryError>)
    ensures
        status == SEC_SUCCESS ==> r is Ok,
        status != SEC_SUCCESS ==> (r matches Err(e) && e.code == ErrorCode::KeychainError
            && e.native_status == Some(status) && e.message@
            == "the secure store refused the update"@),
{
    if status == SEC_SUCCESS {
        Ok(())
    } else {
        Err(BiometryError::keychain("the secure store refused the update", status))
    }
}

/// What `remove_data` returns for each status of its delete. Success and
/// "not found" are both overall success: deletion is idempotent.
pub fn remove_data_outcome(status: i64) -> (r: Result<(), BiometryError>)
    ensures
        status == SEC_SUCCESS || status == SEC_ITEM_NOT_FOUND ==> r is Ok,
        !(status == SEC_SUCCESS || status == SEC_ITEM_NOT_FOUND) ==> (r matches Err(e) && e.code
            == ErrorCode::KeychainError && e.native_status == Some(status) && e.message@
            == "the secure store refused the delete"@),
{
    if status == SEC_SUCCESS || status == SEC_ITEM_NOT_FOUND {
        Ok(())
    } else {
        Err(BiometryError::keychain("the secure store refused the delete", status))
    }
}

} // verus!
