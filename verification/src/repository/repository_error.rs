//! The errors of local storage.

use vstd::prelude::*;

verus! {

/// Why a read or a write of local storage failed.
#[derive(Debug, Clone, PartialEq)]
pub enum RepositoryError {
    /// A row that was asked for by its id is not there.
    NotFound,
    /// The database refused or failed; the message is its own.
    DBError { msg: String },
}

/// Why work inside a transaction failed: the transaction itself, or the work.
#[derive(Debug, Clone, PartialEq)]
pub enum TransactionError<E> {
    Transaction { msg: String },
    Inner(E),
}

} // verus!
