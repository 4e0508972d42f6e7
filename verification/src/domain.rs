//! Plain domain records, owned by the storage layer and read-only here.

use vstd::prelude::*;

verus! {

/// A user's unique identifier: the 128-bit value of a universally unique id.
///
/// Callers that hold the identifier in another shape convert it to and from
/// this value at the boundary.
#[derive(Debug, Clone, Copy, PartialEq, Eq, Hash, Structural)]
pub struct UserId {
    pub value: u128,
}

/// A persisted user record. The use case never mutates one.
#[derive(Debug, Clone)]
pub struct UserEntity {
    pub id: UserId,
    pub name: String,
}

} // verus!
