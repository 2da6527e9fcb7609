//! The platform-independent request and response shapes of the six
//! operations: status, authenticate, and the four vault operations.
//! Every platform variant consumes and produces exactly these types.

use vstd::prelude::*;

verus! {

/// The biometric modality a device reports.
///
/// `Auto` stands for a platform that reports "available" without naming a
/// modality (the consent-verifier flow). The wire encoding is the ordinal,
/// fixed by [`BiometryType::wire_code`].
#[derive(Clone, Copy, Debug, PartialEq, Eq, Structural)]
pub enum BiometryType {
    NoBiometry,
    TouchID,
    FaceID,
    Auto,
}

impl BiometryType {
    /// The ordinal-stable wire encoding of this modality.
    pub open spec fn spec_wire_code(self) -> u8 {
        match self {
            BiometryType::NoBiometry => 0,
            BiometryType::TouchID => 1,
            BiometryType::FaceID => 2,
            BiometryType::Auto => 3,
        }
    }

    /// The ordinal-stable wire encoding of this modality.
    pub fn wire_code(&self) -> (r: u8)
        ensures
            r == self.spec_wire_code(),
    {
        match self {
            BiometryType::NoBiometry => 0,
            BiometryType::TouchID => 1,
            BiometryType::FaceID => 2,
            BiometryType::Auto => 3,
        }
    }
}

/// The result of one availability query: whether the device can verify the
/// user biometrically right now, with which modality, and — when it cannot —
/// the native message and the mapped taxonomy code. Produced fresh on every
/// query and never persisted.
#[derive(Clone, Debug)]
pub struct Status {
    pub is_available: bool,
    pub biometry_type: BiometryType,
    pub error: Option<String>,
    pub error_code: Option<String>,
}

impl Status {
    /// An availability result is well formed when the error fields are
    /// populated exactly on the unavailable side.
    pub open spec fn wf(self) -> bool {
        self.is_available ==> self.error is None && self.error_code is None
    }
}

/// Per-call customization of one interactive authentication. Absent values
/// leave the platform defaults untouched; each platform honors only the
/// subset of fields it natively supports and silently ignores the rest.
#[derive(Clone, Debug)]
pub struct AuthOptions {
    /// Allow the device credential (passcode) to satisfy the challenge.
    /// Absent means biometric-only.
    pub allow_device_credential: Option<bool>,
    /// Label for the cancel button.
    pub cancel_title: Option<String>,
    /// Label for the fallback button shown after a failed biometric try.
    pub fallback_title: Option<String>,
    /// Advisory title of the prompt.
    pub title: Option<String>,
    /// Advisory subtitle of the prompt.
    pub subtitle: Option<String>,
    /// Advisory: require an explicit confirmation after a successful match.
    pub confirmation_required: Option<bool>,
}

impl AuthOptions {
    /// Whether this request lets a device credential satisfy the challenge;
    /// an absent value means no.
    pub open spec fn spec_allows_device_credential(self) -> bool {
        self.allow_device_credential == Some(true)
    }

    /// Whether this request lets a device credential satisfy the challenge;
    /// an absent value means no.
    pub fn allows_device_credential(&self) -> (r: bool)
        ensures
            r == self.spec_allows_device_credential(),
    {
        match self.allow_device_credential {
            Some(b) => b,
            None => false,
        }
    }
}

impl Default for AuthOptions {
    /// All fields absent: platform defaults everywhere, biometric-only.
    fn default() -> (r: Self)
        ensures
            r.allow_device_credential is None,
            r.cancel_title is None,
            r.fallback_title is None,
            r.title is None,
            r.subtitle is None,
            r.confirmation_required is None,
    {
        AuthOptions {
            allow_device_credential: None,
            cancel_title: None,
            fallback_title: None,
            title: None,
            subtitle: None,
            confirmation_required: None,
        }
    }
}

/// The request shape of one `authenticate` call as it crosses the plugin
/// boundary: the prompt text plus the options.
#[derive(Clone, Debug)]
pub struct AuthenticatePayload {
    pub reason: String,
    pub options: AuthOptions,
}

/// A vault key: at most one secret exists under a `(domain, name)` pair.
/// The native store keys its generic-password class by
/// (service = domain, account = name).
#[derive(Clone, Debug)]
pub struct DataOptions {
    pub domain: String,
    pub name: String,
}

impl DataOptions {
    /// The mathematical key this request addresses: (service, account).
    pub open spec fn key(self) -> (Seq<char>, Seq<char>) {
        (self.domain@, self.name@)
    }
}

/// `remove_data` takes the same key shape as `has_data`.
pub type RemoveDataOptions = DataOptions;

/// The response of `has_data`: whether a secret exists under the key.
#[derive(Clone, Copy, Debug, PartialEq, Eq, Structural)]
pub struct HasDataResponse {
    pub has_data: bool,
}

/// The request shape of `get_data`: the key, the human-readable prompt shown
/// while the store verifies user presence, and an optional cancel label.
#[derive(Clone, Debug)]
pub struct GetDataOptions {
    pub domain: String,
    pub name: String,
    pub reason: String,
    pub cancel_title: Option<String>,
}

impl GetDataOptions {
    /// The mathematical key this request addresses: (service, account).
    pub open spec fn key(self) -> (Seq<char>, Seq<char>) {
        (self.domain@, self.name@)
    }
}

/// The response of `get_data`: the secret together with the echoed key.
#[derive(Clone, Debug)]
pub struct DataResponse {
    pub domain: String,
    pub name: String,
    pub data: String,
}

/// The request shape of `set_data`: the key and the secret to bind to it.
#[derive(Clone, Debug)]
pub struct SetDataOptions {
    pub domain: String,
    pub name: String,
    pub data: String,
}

impl SetDataOptions {
    /// The mathematical key this request addresses: (service, account).
    pub open spec fn key(self) -> (Seq<char>, Seq<char>) {
        (self.domain@, self.name@)
    }
}

} // verus!
