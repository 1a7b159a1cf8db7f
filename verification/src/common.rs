use vstd::prelude::*;

use crate::error::ApiError;

verus! {

/// A status counts as success exactly when it lies in the 2xx range.
pub open spec fn spec_is_success(status: u16) -> bool {
    200 <= status && status < 300
}

/// HTTP success check shared by all adapters.
pub fn is_success_status(status: u16) -> (r: bool)
    ensures
        r == spec_is_success(status),
{
    200 <= status && status < 300
}

/// Shared tail of the chat and translation pipelines: a decoded envelope is
/// either absent (the body had the wrong shape), empty (it held no result
/// element), or yields exactly its first element, untouched.
pub fn first_text(decoded: Option<Vec<String>>) -> (r: Result<String, ApiError>)
    ensures
        decoded is None ==> (r matches Err(e) && e is DecodeError),
        decoded matches Some(v) ==> (v@.len() == 0 ==> (r matches Err(e) && e is EmptyResponse)),
        decoded matches Some(v) ==> (v@.len() > 0 ==> (r matches Ok(t) && t@ == v@[0]@)),
{
    match decoded {
        None => Err(ApiError::DecodeError),
        Some(mut v) => {
            if v.len() == 0 {
                Err(ApiError::EmptyResponse)
            } else {
                Ok(v.remove(0))
            }
        },
    }
}

} // verus!
