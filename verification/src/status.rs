//! HTTP status codes that the client tells apart.

use vstd::prelude::*;

verus! {

pub const OK: u16 = 200;
pub const ALREADY_REPORTED: u16 = 208;
pub const BAD_REQUEST: u16 = 400;
pub const UNAUTHORIZED: u16 = 401;
pub const FORBIDDEN: u16 = 403;
pub const REQUEST_TIMEOUT: u16 = 408;
pub const CONFLICT: u16 = 409;
pub const INTERNAL_SERVER_ERROR: u16 = 500;

/// A status in the 2xx range.
pub open spec fn spec_is_success(status: u16) -> bool {
    200 <= status <= 299
}

/// Whether a status is in the 2xx range.
pub fn is_success(status: u16) -> (res: bool)
    ensures
        res == spec_is_success(status),
{
    200 <= status && status <= 299
}

} // verus!
