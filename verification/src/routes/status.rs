use vstd::prelude::*;

verus! {

/// HTTP `200 OK`.
pub const OK: u16 = 200;

/// HTTP `400 Bad Request`.
pub const BAD_REQUEST: u16 = 400;

/// HTTP `401 Unauthorized`.
pub const UNAUTHORIZED: u16 = 401;

/// HTTP `500 Internal Server Error`.
pub const INTERNAL_SERVER_ERROR: u16 = 500;

} // verus!
