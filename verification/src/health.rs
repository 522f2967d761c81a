//! The storage health probe decision.
//!
//! The probe issues one cheap backend round trip per request and maps its
//! outcome onto an HTTP status code: success is 200, any failure — network,
//! auth or backend — is 500, with no distinction exposed to the caller.

use vstd::prelude::*;

verus! {

pub const STATUS_OK: u16 = 200;

pub const STATUS_INTERNAL_SERVER_ERROR: u16 = 500;

/// The status code the health endpoint answers with: 200 exactly when the
/// storage operator's check round trip succeeded, 500 for every failure.
pub fn storage_health(check_succeeded: bool) -> (status: u16)
    ensures
        status == (if check_succeeded {
            STATUS_OK
        } else {
            STATUS_INTERNAL_SERVER_ERROR
        }),
{
    if check_succeeded {
        STATUS_OK
    } else {
        STATUS_INTERNAL_SERVER_ERROR
    }
}

} // verus!
