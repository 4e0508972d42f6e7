//! The closed set of domain-facing error kinds surfaced by this layer.

use vstd::prelude::*;

verus! {

/// Every failure a caller of the use case can see.
///
/// `InfrastructureError` reports a connection-acquisition or query-level
/// fault, carrying a human-readable diagnostic. `NotFound` reports that the
/// query succeeded and no record with the requested identifier exists.
/// Nothing here is retried or silently dropped.
#[derive(Debug, Clone, PartialEq, Eq)]
pub enum APIError {
    InfrastructureError(String),
    NotFound(String),
}

} // verus!
