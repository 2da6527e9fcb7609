//! The fallback desktop component, for desktop platforms with neither a
//! native authentication context nor a consent verifier. The availability
//! query reports "unavailable"; every other operation answers "not
//! supported" verbatim, without attempting any native call.

use vstd::prelude::*;

use crate::models::{AuthOptions, BiometryType, DataOptions, DataResponse, GetDataOptions,
    SetDataOptions, Status};
use crate::taxonomy::{BiometryError, ErrorCode};

verus! {

/// The fallback desktop component. It has nothing to consult and nothing to
/// store.
pub struct Biometry {}

impl Biometry {
    pub fn new() -> Biometry {
        Biometry {  }
    }

    /// The availability query never fails: on this platform it always
    /// reports "unavailable", with the not-supported code alongside.
    pub fn status(&self) -> (r: Status)
        ensures
            !r.is_available,
            r.biometry_type == BiometryType::NoBiometry,
            r.error matches Some(m) && m@ == "biometry is not supported on desktop platforms"@,
            r.error_code matches Some(c) && c@ == ErrorCode::NotSupported.spec_name(),
            r.wf(),
    {
        Status {
            is_available: false,
            biometry_type: BiometryType::NoBiometry,
            error: Some("biometry is not supported on desktop platforms".to_owned()),
            error_code: Some(ErrorCode::NotSupported.name().to_owned()),
        }
    }

    /// Authentication is never implemented on this platform.
    pub fn authenticate(&self, _reason: &str, _options: &AuthOptions) -> (r: Result<
        (),
        BiometryError,
    >)
        ensures
            r matches Err(e) && e.code == ErrorCode::NotSupported && e.message@
                == "biometry is not supported on desktop platforms"@,
    {
        Err(unsupported())
    }

    /// The vault is never implemented on this platform.
    pub fn has_data(&self, _options: &DataOptions) -> (r: Result<bool, BiometryError>)
        ensures
            r matches Err(e) && e.code == ErrorCode::NotSupported && e.message@
                == "biometry is not supported on desktop platforms"@,
    {
        Err(unsupported())
    }

    /// The vault is never implemented on this platform.
    pub fn get_data(&self, _options: &GetDataOptions) -> (r: Result<DataResponse, BiometryError>)
        ensures
            r matches Err(e) && e.code == ErrorCode::NotSupported && e.message@
                == "biometry is not supported on desktop platforms"@,
    {
        Err(unsupported())
    }

    /// The vault is never implemented on this platform.
    pub fn set_data(&self, _options: &SetDataOptions) -> (r: Result<(), BiometryError>)
        ensures
            r matches Err(e) && e.code == ErrorCode::NotSupported && e.message@
                == "biometry is not supported on desktop platforms"@,
    {
        Err(unsupported())
    }

    /// The vault is never implemented on this platform.
    pub fn remove_data(&self, _options: &DataOptions) -> (r: Result<(), BiometryError>)
        ensures
            r matches Err(e) && e.code == ErrorCode::NotSupported && e.message@
                == "biometry is not supported on desktop platforms"@,
    {
        Err(unsupported())
    }
}

fn unsupported() -> (r: BiometryError)
    ensures
        r.code == ErrorCode::NotSupported,
        r.message@ == "biometry is not supported on desktop platforms"@,
        r.wf(),
{
    BiometryError::new(ErrorCode::NotSupported, "biometry is not supported on desktop platforms")
}

} // verus!
