//! Capability contracts the use case consumes.
//!
//! Production storage and pooling live outside this crate; they and the test
//! doubles implement these traits, and every implementation is held to the
//! same contracts the interactor's proof relies on.

use vstd::prelude::*;

use crate::domain::{UserEntity, UserId};
use crate::error::APIError;

verus! {

/// What one repository lookup may report, against the records `users` the
/// backing store holds (a name keyed by each identifier's 128-bit value):
/// the stored entity when the identifier is present, `None` when it is
/// absent (absence is not an error at this layer), and otherwise an
/// infrastructure fault — never `NotFound`, which only the interactor
/// produces.
pub open spec fn lookup_post(
    users: Map<u128, Seq<char>>,
    id: UserId,
    r: Result<Option<UserEntity>, APIError>,
) -> bool {
    match r {
        Ok(Some(entity)) => users.contains_key(id.value) && entity.id == id
            && entity.name@ == users[id.value],
        Ok(None) => !users.contains_key(id.value),
        Err(e) => e is InfrastructureError,
    }
}

/// A bounded pool of database connections, shared process-wide.
pub trait DatabasePool {
    type Connection;

    /// Borrow one pooled connection for the caller's scope.
    ///
    /// Acquisition may fail — the pool may be exhausted, closed, or unable
    /// to reach the backing store — so nothing is promised of the outcome;
    /// a failure carries a diagnostic describing the cause.
    fn acquire(&self) -> (r: Result<Self::Connection, String>);
}

/// Persistence for user records, hiding the storage technology.
pub trait UserRepository {
    type Connection;

    /// The records the backing store currently holds: each stored name,
    /// keyed by the identifier's 128-bit value.
    spec fn users(&self) -> Map<u128, Seq<char>>;

    /// Find the record with identifier `id`, reading through a borrowed
    /// connection. Absence is reported as `Ok(None)`, a transport or query
    /// fault as an infrastructure error; the two are never conflated.
    fn find_by_id(&self, id: UserId, connection: &mut Self::Connection) -> (r: Result<
        Option<UserEntity>,
        APIError,
    >)
        ensures
            lookup_post(self.users(), id, r),
    ;
}

/// The scoped-resource boundary around the connection pool.
pub trait ConnectionFactory {
    type Pool: DatabasePool;

    /// Run `work` with a borrowed pool and hand its result back unchanged;
    /// when the factory itself cannot provide the pool, report an
    /// infrastructure failure instead. Every connection borrowed within
    /// `work`'s scope is returned to the pool on every exit path.
    fn acquire<T, F: FnOnce(&Self::Pool) -> Result<T, APIError>>(&self, work: F) -> (r: Result<
        T,
        APIError,
    >)
        requires
            forall|pool: &Self::Pool| #[trigger] call_requires(work, (pool,)),
        ensures
            (exists|pool: &Self::Pool| #[trigger] call_ensures(work, (pool,), r)) || (
            r matches Err(e) && e is InfrastructureError),
    ;
}

} // verus!
