//! The delegated mobile bridge: each operation is forwarded verbatim to the
//! platform plugin under a fixed handler name, with the same request and
//! response shapes the rest of the library uses. No native logic lives
//! here; the unverified shell owns the plugin handle and performs the call.

use vstd::prelude::*;

use crate::models::{AuthOptions, AuthenticatePayload, HasDataResponse};
use crate::Operation;

verus! {

/// The handler name each operation is forwarded under.
pub open spec fn spec_method_name(op: Operation) -> Seq<char> {
    match op {
        Operation::Status => "status"@,
        Operation::Authenticate => "authenticate"@,
        Operation::HasData => "hasData"@,
        Operation::GetData => "getData"@,
        Operation::SetData => "setData"@,
        Operation::RemoveData => "removeData"@,
    }
}

/// The handler name each operation is forwarded under.
pub fn method_name(op: Operation) -> (r: &'static str)
    ensures
        r@ == spec_method_name(op),
{
    match op {
        Operation::Status => "status",
        Operation::Authenticate => "authenticate",
        Operation::HasData => "hasData",
        Operation::GetData => "getData",
        Operation::SetData => "setData",
        Operation::RemoveData => "removeData",
    }
}

/// The payload one `authenticate` call forwards: the prompt text beside the
/// unchanged options.
pub fn authenticate_payload(reason: String, options: AuthOptions) -> (p: AuthenticatePayload)
    ensures
        p.reason@ == reason@,
        p.options == options,
{
    AuthenticatePayload { reason, options }
}

/// The answer `has_data` forwards back: the flag of the plugin's response,
/// unchanged.
pub fn has_data_of(response: HasDataResponse) -> (r: bool)
    ensures
        r == response.has_data,
{
    response.has_data
}

} // verus!
