//! Deleting a customer invoice.

use crate::repository::invoice::InvoiceLineRow;
use crate::repository::repository_error::{RepositoryError, TransactionError};
use vstd::prelude::*;

verus! {

#[derive(Debug, Clone, PartialEq)]
pub enum DeleteCustomerInvoiceError {
    InvoiceDoesNotExist,
    DatabaseError(RepositoryError),
    NotThisStoreInvoice,
    CannotEditFinalised,
    InvoiceLinesExists(Vec<InvoiceLineRow>),
    NotACustomerInvoice,
}

impl DeleteCustomerInvoiceError {
    /// A failure of storage as an error of the deletion.
    pub fn from_repository_error(error: RepositoryError) -> (r: DeleteCustomerInvoiceError)
        ensures
            r == DeleteCustomerInvoiceError::DatabaseError(error),
    {
        DeleteCustomerInvoiceError::DatabaseError(error)
    }
}

/// What the deletion of a customer invoice answers, given how the
/// transaction ended in which the invoice was checked and deleted: the id of
/// the invoice where it went through, the error of the check or of the
/// delete where one of them failed, and a failure of storage where the
/// transaction itself failed.
pub fn delete_customer_invoice(
    transaction: Result<(), TransactionError<DeleteCustomerInvoiceError>>,
    id: String,
) -> (r: Result<String, DeleteCustomerInvoiceError>)
    ensures
        match transaction {
            Ok(()) => r == Ok::<String, DeleteCustomerInvoiceError>(id),
            Err(TransactionError::Transaction { msg }) => r == Err::<
                String,
                DeleteCustomerInvoiceError,
            >(DeleteCustomerInvoiceError::DatabaseError(RepositoryError::DBError { msg })),
            Err(TransactionError::Inner(error)) => r == Err::<String, DeleteCustomerInvoiceError>(
                error,
            ),
        },
{
    match transaction {
        Ok(()) => Ok(id),
        Err(TransactionError::Transaction { msg }) => Err(
            DeleteCustomerInvoiceError::from_repository_error(RepositoryError::DBError { msg }),
        ),
        Err(TransactionError::Inner(error)) => Err(error),
    }
}

} // verus!
