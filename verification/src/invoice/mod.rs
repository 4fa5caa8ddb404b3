//! The rules that an invoice must meet before it is changed or deleted.

pub mod customer_invoice;
pub mod outbound_shipment;
pub mod validate;

use crate::repository::repository_error::RepositoryError;
use vstd::prelude::*;

verus! {

/// The error of a check that reads local storage: the storage's own, or the
/// one that the check is for.
#[derive(Debug, Clone, PartialEq)]
pub enum WithDBError<T> {
    DatabaseError(RepositoryError),
    Error(T),
}

impl<T> WithDBError<T> {
    pub fn db(error: RepositoryError) -> (r: WithDBError<T>)
        ensures
            r == WithDBError::<T>::DatabaseError(error),
    {
        WithDBError::DatabaseError(error)
    }

    pub fn err(error: T) -> (r: WithDBError<T>)
        ensures
            r == WithDBError::Error(error),
    {
        WithDBError::Error(error)
    }
}

} // verus!
