//! A verified use-case core for fetching one user by identifier.
//!
//! The interactor acquires a pooled database connection through a
//! connection-factory capability, delegates the read to a repository
//! capability, translates absence and infrastructure faults into a closed
//! error taxonomy, and projects the stored entity into an output shape that
//! carries no storage concerns.

pub mod domain;
pub mod error;
pub mod interactor;
pub mod ports;
