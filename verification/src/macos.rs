//! The keychain-backed authentication and vault component: one availability
//! query, one interactive authentication, and the four vault operations,
//! verified end to end against a model of the generic-password store the
//! operating system keeps for this component.
//!
//! The store contents live with the OS; [`Biometry`] carries the model of
//! those contents that the contracts speak about. Everything the OS alone
//! decides — whether the biometric check passes, what the verification
//! callback reports, how a presence gate resolves — enters each call as an
//! explicit parameter, so every contract holds for every possible native
//! behavior. The unverified shell performs the corresponding native calls
//! and feeds their answers through the same interpreters these methods use.

use vstd::prelude::*;

use crate::keychain::{
    add_request, get_data_outcome, has_data_outcome, remove_data_outcome, set_data_step,
    set_data_update_outcome, update_request, AccessControl, Accessibility, SetDataStep,
    SEC_DUPLICATE_ITEM, SEC_INTERACTION_NOT_ALLOWED, SEC_ITEM_NOT_FOUND, SEC_SUCCESS,
    SEC_USER_CANCELED,
};
use crate::local_auth::{
    begin_authenticate, finish_authenticate, resolve_status, spec_authenticate,
    spec_biometry_kind, spec_la_error_code, AuthBegin, AuthOutcome, AvailabilityProbe,
    BiometryCheck,
};
use crate::models::{AuthOptions, DataOptions, DataResponse, GetDataOptions, SetDataOptions, Status};
use crate::taxonomy::{BiometryError, ErrorCode};

verus! {

/// One item of the modeled generic-password store: the (service, account)
/// key, the secret, and the protection bound to it at write time.
#[derive(Clone, Debug)]
pub struct KeychainEntry {
    pub service: String,
    pub account: String,
    pub data: String,
    pub access_control: AccessControl,
    pub accessibility: Accessibility,
}

impl KeychainEntry {
    /// The (service, account) key of this item.
    pub open spec fn key(self) -> (Seq<char>, Seq<char>) {
        (self.service@, self.account@)
    }

    /// Whether this item's secret is released only after a user-presence
    /// verification, and only while this device is unlocked.
    pub open spec fn gated(self) -> bool {
        self.access_control == AccessControl::UserPresence && self.accessibility
            == Accessibility::WhenUnlockedThisDeviceOnly
    }
}

/// No two items share a (service, account) key.
pub open spec fn unique_keys(s: Seq<KeychainEntry>) -> bool {
    forall|i: int, j: int| 0 <= i < j < s.len() ==> s[i].key() != s[j].key()
}

/// Every item is presence-gated and device-bound.
pub open spec fn all_gated(s: Seq<KeychainEntry>) -> bool {
    forall|i: int| 0 <= i < s.len() ==> (#[trigger] s[i]).gated()
}

/// The mathematical view of the vault: (service, account) to secret.
pub type VaultView = Map<(Seq<char>, Seq<char>), Seq<char>>;

/// The map a sequence of store items denotes.
pub open spec fn entries_map(s: Seq<KeychainEntry>) -> VaultView
    decreases s.len(),
{
    if s.len() == 0 {
        Map::empty()
    } else {
        entries_map(s.drop_last()).insert(s.last().key(), s.last().data@)
    }
}

proof fn lemma_map_has_key_of_entry(s: Seq<KeychainEntry>, i: int)
    requires
        0 <= i < s.len(),
        unique_keys(s),
    ensures
        entries_map(s).contains_key(s[i].key()),
        entries_map(s)[s[i].key()] == s[i].data@,
    decreases s.len(),
{
    let t = s.drop_last();
    if i < s.len() - 1 {
        assert(unique_keys(t));
        lemma_map_has_key_of_entry(t, i);
        assert(s[i].key() != s.last().key());
    }
}

proof fn lemma_map_no_key(s: Seq<KeychainEntry>, k: (Seq<char>, Seq<char>))
    requires
        forall|j: int| 0 <= j < s.len() ==> (#[trigger] s[j]).key() != k,
    ensures
        !entries_map(s).contains_key(k),
    decreases s.len(),
{
    if s.len() > 0 {
        let t = s.drop_last();
        assert(forall|j: int| 0 <= j < t.len() ==> (#[trigger] t[j]).key() != k);
        lemma_map_no_key(t, k);
        assert(s.last().key() != k);
    }
}

proof fn lemma_map_push(s: Seq<KeychainEntry>, e: KeychainEntry)
    ensures
        entries_map(s.push(e)) == entries_map(s).insert(e.key(), e.data@),
{
    let p = s.push(e);
    assert(p.drop_last() =~= s);
    assert(p.last() == e);
}

proof fn lemma_map_remove_at(s: Seq<KeychainEntry>, i: int)
    requires
        0 <= i < s.len(),
        unique_keys(s),
    ensures
        entries_map(s.remove(i)) == entries_map(s).remove(s[i].key()),
    decreases s.len(),
{
    let k = s[i].key();
    let r = s.remove(i);
    let t = s.drop_last();
    s.remove_ensures(i);
    if i == s.len() - 1 {
        assert(r =~= t);
        assert(forall|j: int| 0 <= j < t.len() ==> (#[trigger] t[j]).key() != k);
        lemma_map_no_key(t, k);
        assert(entries_map(t).remove(k) =~= entries_map(t));
        assert(entries_map(s).remove(k) =~= entries_map(t).insert(k, s.last().data@).remove(k));
        assert(entries_map(t).insert(k, s.last().data@).remove(k) =~= entries_map(t).remove(k));
    } else {
        assert(unique_keys(t));
        lemma_map_remove_at(t, i);
        assert(r.drop_last() =~= t.remove(i));
        assert(r.last() == s.last());
        assert(entries_map(r) == entries_map(t.remove(i)).insert(s.last().key(), s.last().data@));
        assert(s.last().key() != k);
        assert(entries_map(t).remove(k).insert(s.last().key(), s.last().data@) =~= entries_map(
            t,
        ).insert(s.last().key(), s.last().data@).remove(k));
    }
}

/// Whether the vault holds a secret under a key.
pub open spec fn spec_vault_has(m: VaultView, k: (Seq<char>, Seq<char>)) -> bool {
    m.contains_key(k)
}

/// The vault after a write: an upsert, whether or not the key was present.
pub open spec fn spec_vault_set(m: VaultView, k: (Seq<char>, Seq<char>), v: Seq<char>) -> VaultView {
    m.insert(k, v)
}

/// The vault after a delete, whether or not the key was present.
pub open spec fn spec_vault_remove(m: VaultView, k: (Seq<char>, Seq<char>)) -> VaultView {
    m.remove(k)
}

/// How the store's user-presence gate resolved for one read that needed it.
#[derive(Clone, Copy, Debug, PartialEq, Eq, Structural)]
pub enum PresenceGate {
    /// The user's presence was verified; the secret may be released.
    Verified,
    /// The user cancelled the presence prompt.
    Canceled,
    /// Interaction was needed but the calling context disallowed it.
    InteractionDisallowed,
}

/// The result of one read, for each vault state and each gate outcome.
pub open spec fn spec_vault_get(
    m: VaultView,
    k: (Seq<char>, Seq<char>),
    gate: PresenceGate,
) -> Result<Seq<char>, ErrorCode> {
    if !m.contains_key(k) {
        Err(ErrorCode::ItemNotFound)
    } else {
        match gate {
            PresenceGate::Verified => Ok(m[k]),
            PresenceGate::Canceled => Err(ErrorCode::UserCancel),
            PresenceGate::InteractionDisallowed => Err(ErrorCode::AuthenticationRequired),
        }
    }
}

/// Round trip: writing a secret and then reading it back under a verified
/// presence gate returns exactly that secret.
pub proof fn lemma_set_then_get_round_trip(m: VaultView, k: (Seq<char>, Seq<char>), v: Seq<char>)
    ensures
        spec_vault_get(spec_vault_set(m, k, v), k, PresenceGate::Verified) == Ok::<
            Seq<char>,
            ErrorCode,
        >(v),
{
}

/// Create/destroy cycle: an absent key reads as absent, it reads as present
/// right after a write, and as absent again right after a delete.
pub proof fn lemma_exists_cycle(m: VaultView, k: (Seq<char>, Seq<char>), v: Seq<char>)
    ensures
        spec_vault_has(spec_vault_set(m, k, v), k),
        !spec_vault_has(spec_vault_remove(spec_vault_set(m, k, v), k), k),
        !spec_vault_has(spec_vault_remove(m, k), k),
{
}

/// Deleting is idempotent: deleting an absent key changes nothing (and the
/// call still reports success, see [`Biometry::remove_data`]), and a second
/// delete of the same key is a no-op.
pub proof fn lemma_remove_idempotent(m: VaultView, k: (Seq<char>, Seq<char>))
    ensures
        spec_vault_remove(spec_vault_remove(m, k), k) == spec_vault_remove(m, k),
        !spec_vault_has(m, k) ==> spec_vault_remove(m, k) == m,
{
    assert(spec_vault_remove(spec_vault_remove(m, k), k) =~= spec_vault_remove(m, k));
    if !spec_vault_has(m, k) {
        assert(spec_vault_remove(m, k) =~= m);
    }
}

/// Upsert, not append: a second write under the same key replaces the first
/// entirely, and a read then returns the second value alone.
pub proof fn lemma_set_overwrites(
    m: VaultView,
    k: (Seq<char>, Seq<char>),
    v1: Seq<char>,
    v2: Seq<char>,
)
    ensures
        spec_vault_set(spec_vault_set(m, k, v1), k, v2) == spec_vault_set(m, k, v2),
        spec_vault_get(spec_vault_set(spec_vault_set(m, k, v1), k, v2), k, PresenceGate::Verified)
            == Ok::<Seq<char>, ErrorCode>(v2),
{
    assert(spec_vault_set(spec_vault_set(m, k, v1), k, v2) =~= spec_vault_set(m, k, v2));
}

/// The keychain-backed platform component. Its view is the vault contents;
/// its invariant is the vault's security shape: one item per key, every item
/// presence-gated and bound to this device while unlocked.
pub struct Biometry {
    entries: Vec<KeychainEntry>,
}

impl View for Biometry {
    type V = VaultView;

    closed spec fn view(&self) -> VaultView {
        entries_map(self.entries@)
    }
}

impl Biometry {
    /// The vault's security shape: one item per key, every item
    /// presence-gated and bound to this device while unlocked. Established
    /// by [`Biometry::new`] and preserved by every operation.
    pub closed spec fn wf(self) -> bool {
        unique_keys(self.entries@) && all_gated(self.entries@)
    }

    /// A component whose vault holds nothing yet.
    pub fn new() -> (r: Self)
        ensures
            r@ == Map::<(Seq<char>, Seq<char>), Seq<char>>::empty(),
            r.wf(),
    {
        Biometry { entries: Vec::new() }
    }

    /// The index of the item under (domain, name), if one exists.
    fn find_index(&self, domain: &String, name: &String) -> (r: Option<usize>)
        ensures
            r matches Some(i) ==> i < self.entries@.len() && self.entries@[i as int].key() == (
                domain@,
                name@,
            ),
            r is None ==> forall|j: int|
                0 <= j < self.entries@.len() ==> (#[trigger] self.entries@[j]).key() != (
                domain@,
                name@,
            ),
    {
        let mut i: usize = 0;
        while i < self.entries.len()
            invariant
                i <= self.entries@.len(),
                forall|j: int|
                    0 <= j < i ==> (#[trigger] self.entries@[j]).key() != (domain@, name@),
            decreases self.entries@.len() - i,
        {
            let e = &self.entries[i];
            if e.service == *domain && e.account == *name {
                return Some(i);
            }
            i = i + 1;
        }
        None
    }

    /// The availability query: resolves one probe of the native context into
    /// the portable status record. Never fails and never prompts; a failed
    /// native check is folded into `is_available = false` with the native
    /// message and the mapped taxonomy code alongside.
    pub fn status(&self, probe: &AvailabilityProbe) -> (r: Status)
        ensures
            r.is_available == (probe.can_evaluate is Available),
            r.biometry_type == spec_biometry_kind(probe.modality as int),
            probe.can_evaluate is Available ==> r.error is None && r.error_code is None,
            probe.can_evaluate matches BiometryCheck::Unavailable(e) ==> (r.error matches Some(m)
                && m@ == e.message@) && (r.error_code matches Some(c) && c@ == spec_la_error_code(
                e.code as int,
            ).spec_name()),
            r.wf(),
    {
        resolve_status(probe)
    }

    /// One interactive authentication. The availability re-check decides
    /// whether a prompt is issued at all: with biometry unavailable and the
    /// device credential disallowed the call fails at once with the mapped
    /// native error and the verification outcome is never consulted.
    /// Otherwise exactly one prompt is issued and its outcome is mapped —
    /// success only for a verified user, a broken rendezvous included.
    pub fn authenticate(
        &self,
        reason: &str,
        options: &AuthOptions,
        check: &BiometryCheck,
        outcome: AuthOutcome,
    ) -> (r: Result<(), BiometryError>)
        ensures
            (r is Ok) == (spec_authenticate(*check, *options, outcome) is Ok),
            r matches Err(e) ==> (spec_authenticate(*check, *options, outcome) matches Err(c)
                && e.code == c && e.wf()),
            !options.spec_allows_device_credential() ==> (check matches BiometryCheck::Unavailable(
                ne,
            ) ==> (r matches Err(e) && e.message@ == ne.message@)),
    {
        match begin_authenticate(check, reason, options) {
            AuthBegin::Reject(e) => Err(e),
            AuthBegin::Prompt(_prompt) => finish_authenticate(outcome),
        }
    }

    /// Whether the vault holds a secret under the key. Never prompts: the
    /// lookup carries no presence gate and is issued in the
    /// fail-rather-than-prompt interaction mode, so existence is answered
    /// from the store's metadata alone, without releasing the secret.
    pub fn has_data(&self, options: &DataOptions) -> (r: Result<bool, BiometryError>)
        requires
            self.wf(),
        ensures
            r matches Ok(b) && b == spec_vault_has(self@, options.key()),
    {
        let idx = self.find_index(&options.domain, &options.name);
        match idx {
            Some(i) => {
                proof {
                    lemma_map_has_key_of_entry(self.entries@, i as int);
                }
                // Every stored item is presence-gated, so a fail-without-
                // prompt lookup answers "found, but interaction would be
                // required" — which still proves existence.
                has_data_outcome(SEC_INTERACTION_NOT_ALLOWED)
            },
            None => {
                proof {
                    lemma_map_no_key(self.entries@, options.key());
                }
                has_data_outcome(SEC_ITEM_NOT_FOUND)
            },
        }
    }

    /// Reads the secret under the key, releasing it only through the
    /// user-presence gate. The echoed key accompanies the secret; every
    /// failure is one mapped taxonomy entry, exactly as
    /// [`spec_vault_get`] states.
    pub fn get_data(&self, options: &GetDataOptions, gate: PresenceGate) -> (r: Result<
        DataResponse,
        BiometryError,
    >)
        requires
            self.wf(),
        ensures
            (r is Ok) == (spec_vault_get(self@, options.key(), gate) is Ok),
            r matches Ok(resp) ==> resp.domain@ == options.domain@ && resp.name@ == options.name@
                && spec_vault_get(self@, options.key(), gate) == Ok::<Seq<char>, ErrorCode>(
                resp.data@,
            ),
            r matches Err(e) ==> spec_vault_get(self@, options.key(), gate) == Err::<
                Seq<char>,
                ErrorCode,
            >(e.code) && e.wf(),
    {
        let idx = self.find_index(&options.domain, &options.name);
        match idx {
            None => {
                proof {
                    lemma_map_no_key(self.entries@, options.key());
                }
                get_data_outcome(
                    SEC_ITEM_NOT_FOUND,
                    None,
                    options.domain.clone(),
                    options.name.clone(),
                )
            },
            Some(i) => {
                proof {
                    lemma_map_has_key_of_entry(self.entries@, i as int);
                }
                match gate {
                    PresenceGate::Verified => get_data_outcome(
                        SEC_SUCCESS,
                        Some(self.entries[i].data.clone()),
                        options.domain.clone(),
                        options.name.clone(),
                    ),
                    PresenceGate::Canceled => get_data_outcome(
                        SEC_USER_CANCELED,
                        None,
                        options.domain.clone(),
                        options.name.clone(),
                    ),
                    PresenceGate::InteractionDisallowed => get_data_outcome(
                        SEC_INTERACTION_NOT_ALLOWED,
                        None,
                        options.domain.clone(),
                        options.name.clone(),
                    ),
                }
            },
        }
    }

    /// Writes the secret under the key: an upsert. A first write inserts the
    /// item bound to a fresh user-presence access control; a write over an
    /// existing key replaces payload, access control and accessibility
    /// together, never partially. Writing needs no presence gate.
    pub fn set_data(&mut self, options: &SetDataOptions) -> (r: Result<(), BiometryError>)
        requires
            old(self).wf(),
        ensures
            r is Ok,
            final(self)@ == spec_vault_set(old(self)@, options.key(), options.data@),
            final(self).wf(),
    {
        let idx = self.find_index(&options.domain, &options.name);
        let req = add_request(options);
        match idx {
            None => {
                // No duplicate exists: the insert succeeds outright.
                let step = set_data_step(SEC_SUCCESS);
                match step {
                    SetDataStep::Done => {
                        let e = KeychainEntry {
                            service: req.service,
                            account: req.account,
                            data: req.data,
                            access_control: req.access_control,
                            accessibility: req.accessibility,
                        };
                        proof {
                            lemma_map_push(self.entries@, e);
                            assert(forall|j: int|
                                0 <= j < self.entries@.len() ==> (
                                #[trigger] self.entries@.push(e)[j]) == self.entries@[j]);
                        }
                        self.entries.push(e);
                        Ok(())
                    },
                    SetDataStep::NeedsUpdate => Ok(()),
                    SetDataStep::Failed(e) => Err(e),
                }
            },
            Some(i) => {
                // The insert reports a duplicate: update the matched item in
                // place, replacing payload, access control and accessibility
                // together.
                let step = set_data_step(SEC_DUPLICATE_ITEM);
                match step {
                    SetDataStep::NeedsUpdate => {
                        let up = update_request(options);
                        proof {
                            lemma_map_remove_at(self.entries@, i as int);
                            self.entries@.remove_ensures(i as int);
                        }
                        let prior = self.entries.remove(i);
                        let e = KeychainEntry {
                            service: prior.service,
                            account: prior.account,
                            data: up.data,
                            access_control: up.access_control,
                            accessibility: up.accessibility,
                        };
                        proof {
                            lemma_map_push(self.entries@, e);
                            assert(forall|j: int|
                                0 <= j < self.entries@.len() ==> (
                                #[trigger] self.entries@.push(e)[j]) == self.entries@[j]);
                        }
                        self.entries.push(e);
                        let fin = set_data_update_outcome(SEC_SUCCESS);
                        proof {
                            assert(self@ =~= spec_vault_set(
                                old(self)@,
                                options.key(),
                                options.data@,
                            ));
                        }
                        fin
                    },
                    SetDataStep::Done => Ok(()),
                    SetDataStep::Failed(e) => Err(e),
                }
            },
        }
    }

    /// Deletes the item under the key. Success and "nothing was there" are
    /// both success: deletion is idempotent, and an absent key is never an
    /// error.
    pub fn remove_data(&mut self, options: &DataOptions) -> (r: Result<(), BiometryError>)
        requires
            old(self).wf(),
        ensures
            r is Ok,
            final(self)@ == spec_vault_remove(old(self)@, options.key()),
            final(self).wf(),
    {
        let idx = self.find_index(&options.domain, &options.name);
        match idx {
            Some(i) => {
                proof {
                    lemma_map_remove_at(self.entries@, i as int);
                    self.entries@.remove_ensures(i as int);
                }
                let _removed = self.entries.remove(i);
                remove_data_outcome(SEC_SUCCESS)
            },
            None => {
                proof {
                    lemma_map_no_key(self.entries@, options.key());
                    assert(spec_vault_remove(self@, options.key()) =~= self@);
                }
                remove_data_outcome(SEC_ITEM_NOT_FOUND)
            },
        }
    }
}

} // verus!
