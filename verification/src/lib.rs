//! A platform-independent contract for biometric authentication and a
//! biometric-gated credential vault.
//!
//! Four platform variants share one small synchronous API — status query,
//! one interactive authentication, and four vault operations — together
//! with a single portable error taxonomy. The native subsystems (the
//! local-authentication context, the keychain store, the consent verifier,
//! the mobile plugin) are driven by a thin unverified shell; every decision
//! this layer makes — which policy to evaluate, which query to issue,
//! what each native status code means, what each call returns — is
//! verified here.

pub mod desktop;
pub mod keychain;
pub mod local_auth;
pub mod macos;
pub mod mobile;
pub mod models;
pub mod rendezvous;
pub mod taxonomy;
pub mod windows;

use vstd::prelude::*;

verus! {

/// The six operations every platform variant exposes.
#[derive(Clone, Copy, Debug, PartialEq, Eq, Structural)]
pub enum Operation {
    Status,
    Authenticate,
    HasData,
    GetData,
    SetData,
    RemoveData,
}

} // verus!
