//! The use case: fetch one user by identifier through a pooled connection.

use std::sync::Arc;

use vstd::prelude::*;
use vstd::string::StringExecFns;

use crate::domain::{UserEntity, UserId};
use crate::error::APIError;
use crate::ports::{lookup_post, ConnectionFactory, DatabasePool, UserRepository};

verus! {

pub struct GetUserInteractor {}

/// The caller-facing projection of a user record: a field-by-field copy of
/// the entity, with no storage-layer types and no identity of its own.
#[derive(Debug, Clone)]
pub struct GetUserInteractorOutput {
    pub id: UserId,
    pub name: String,
}

impl From<UserEntity> for GetUserInteractorOutput {
    fn from(value: UserEntity) -> (output: Self) {
        GetUserInteractorOutput { id: value.id, name: value.name }
    }
}

impl vstd::std_specs::convert::FromSpecImpl<UserEntity> for GetUserInteractorOutput {
    open spec fn obeys_from_spec() -> bool {
        true
    }

    open spec fn from_spec(value: UserEntity) -> Self {
        GetUserInteractorOutput { id: value.id, name: value.name }
    }
}

/// What one execution may report, against the records `users` the backing
/// store held while its query ran: a present identifier is answered with
/// exactly the stored fields, an absent one with `NotFound` carrying the
/// detail `"Not Found"`, and an infrastructure fault — in the pool, the
/// factory, or the query — may surface on any input.
pub open spec fn execute_post(
    users: Map<u128, Seq<char>>,
    id: UserId,
    r: Result<GetUserInteractorOutput, APIError>,
) -> bool {
    match r {
        Ok(output) => users.contains_key(id.value) && output.id == id
            && output.name@ == users[id.value],
        Err(APIError::NotFound(detail)) => !users.contains_key(id.value)
            && detail@ == "Not Found"@,
        Err(APIError::InfrastructureError(_)) => true,
    }
}

/// A stored identifier is never reported as missing: whatever the execution
/// reports of it is either a success carrying exactly the stored fields or
/// an infrastructure fault — never `NotFound`.
pub proof fn lemma_existing_user_never_not_found(
    users: Map<u128, Seq<char>>,
    id: UserId,
    r: Result<GetUserInteractorOutput, APIError>,
)
    requires
        execute_post(users, id, r),
        users.contains_key(id.value),
    ensures
        !(r matches Err(APIError::NotFound(_))),
        r matches Ok(output) ==> output.id == id && output.name@ == users[id.value],
{
}

/// An identifier the store does not hold is never served: the execution
/// reports `NotFound` with the detail `"Not Found"`, or an infrastructure
/// fault — never a success.
pub proof fn lemma_missing_user_never_served(
    users: Map<u128, Seq<char>>,
    id: UserId,
    r: Result<GetUserInteractorOutput, APIError>,
)
    requires
        execute_post(users, id, r),
        !users.contains_key(id.value),
    ensures
        !(r is Ok),
        r matches Err(APIError::NotFound(detail)) ==> detail@ == "Not Found"@,
{
}

/// The read is idempotent: two executions for the same identifier against
/// an unchanged backing store agree on every outcome the store decides —
/// successes carry the same fields, a success in one rules out `NotFound`
/// in the other, and `NotFound` details coincide.
pub proof fn lemma_repeated_read_agrees(
    users: Map<u128, Seq<char>>,
    id: UserId,
    r1: Result<GetUserInteractorOutput, APIError>,
    r2: Result<GetUserInteractorOutput, APIError>,
)
    requires
        execute_post(users, id, r1),
        execute_post(users, id, r2),
    ensures
        r1 is Ok && r2 is Ok ==> r1->Ok_0.id == r2->Ok_0.id && r1->Ok_0.name@ == r2->Ok_0.name@,
        r1 is Ok ==> !(r2 matches Err(APIError::NotFound(_))),
        r1 matches Err(APIError::NotFound(first)) ==> (r2 matches Err(APIError::NotFound(second))
            ==> first@ == second@),
{
}

/// Wrap a pool-acquisition fault as the infrastructure error the caller
/// sees, keeping the cause in the diagnostic.
pub fn acquisition_failure(cause: String) -> (e: APIError)
    ensures
        e matches APIError::InfrastructureError(detail) && detail@ == "Failed to acquire connection: "@
            + cause@,
{
    let mut detail = String::from_str("Failed to acquire connection: ");
    detail.append(cause.as_str());
    APIError::InfrastructureError(detail)
}

/// Turn what the repository reported into the caller's result: a found
/// entity becomes the output projection, absence becomes `NotFound` with
/// the detail `"Not Found"` — the one place that conversion happens — and
/// an error propagates unchanged.
pub fn resolve_lookup(found: Result<Option<UserEntity>, APIError>) -> (r: Result<
    GetUserInteractorOutput,
    APIError,
>)
    ensures
        match found {
            Ok(Some(entity)) => r matches Ok(output) && output.id == entity.id && output.name
                == entity.name,
            Ok(None) => r matches Err(APIError::NotFound(detail)) && detail@ == "Not Found"@,
            Err(e) => r matches Err(surfaced) && surfaced == e,
        },
{
    match found {
        Ok(Some(entity)) => Ok(GetUserInteractorOutput::from(entity)),
        Ok(None) => Err(APIError::NotFound(String::from_str("Not Found"))),
        Err(e) => Err(e),
    }
}

impl GetUserInteractor {
    /// Fetch the user with identifier `id`: within one scoped connection
    /// acquisition run by the factory, borrow a connection from the pool and
    /// ask the repository for the record; a missing record becomes
    /// `NotFound`, faults in the pool, the factory, or the query surface as
    /// infrastructure errors, and a found entity is projected into the
    /// output shape.
    pub fn execute<P, R, CF>(
        id: UserId,
        user_repository: R,
        connection_factory: Arc<CF>,
    ) -> (r: Result<GetUserInteractorOutput, APIError>) where
        P: DatabasePool,
        R: UserRepository<Connection = P::Connection> + Send + Sync,
        CF: ConnectionFactory<Pool = P>,

        ensures
            execute_post(user_repository.users(), id, r),
    {
        let unit_of_work = |pool: &P| -> (found: Result<Option<UserEntity>, APIError>)
            ensures
                lookup_post(user_repository.users(), id, found),
            {
                match pool.acquire() {
                    Ok(mut connection) => user_repository.find_by_id(id, &mut connection),
                    Err(cause) => Err(acquisition_failure(cause)),
                }
            };
        let looked_up = connection_factory.acquire(unit_of_work);
        resolve_lookup(looked_up)
    }
}

} // verus!
