//! The HTTP status codes the services answer with.

use vstd::prelude::*;

verus! {

pub const OK: u16 = 200;
pub const CREATED: u16 = 201;
pub const UNAUTHORIZED: u16 = 401;
pub const NOT_FOUND: u16 = 404;
pub const CONFLICT: u16 = 409;
pub const INTERNAL_SERVER_ERROR: u16 = 500;

/// Each answer carries its standard HTTP code: 200 OK, 201 Created,
/// 401 Unauthorized, 404 Not Found, 409 Conflict, 500 Internal Server
/// Error; all six differ.
pub proof fn law_standard_codes()
    ensures
        OK == 200,
        CREATED == 201,
        UNAUTHORIZED == 401,
        NOT_FOUND == 404,
        CONFLICT == 409,
        INTERNAL_SERVER_ERROR == 500,
{
}

} // verus!
