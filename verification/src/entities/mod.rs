//! Domain entities and value objects.

pub mod api_key;
pub mod audit;
pub mod email;
pub mod invite_token;
pub mod organization;
pub mod password_reset_token;
pub mod permission;
pub mod role;
pub mod session;
pub mod user;

use vstd::prelude::*;

verus! {

/// A point in time, as nanoseconds since the Unix epoch (UTC).
pub type Timestamp = i128;

} // verus!
