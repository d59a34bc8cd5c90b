//! The HTTP status codes that the proxy and its administrative surface give.

use vstd::prelude::*;

verus! {

/// A request was answered, from the cache or by a read or update.
pub const OK: u16 = 200;

/// Something was created.
pub const CREATED: u16 = 201;

/// Something was deleted; there is nothing to show.
pub const NO_CONTENT: u16 = 204;

/// The upstream URL of a request could not be formed.
pub const BAD_REQUEST: u16 = 400;

/// The host is not routed, or what was asked for does not exist.
pub const NOT_FOUND: u16 = 404;

/// The client is over its rate limit.
pub const TOO_MANY_REQUESTS: u16 = 429;

/// The persistent store failed.
pub const INTERNAL_SERVER_ERROR: u16 = 500;

/// The origin could not be reached or did not answer.
pub const BAD_GATEWAY: u16 = 502;

} // verus!
