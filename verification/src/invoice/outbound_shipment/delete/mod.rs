//! Deleting an outbound shipment.

pub mod validate;

use crate::repository::invoice::InvoiceLineRow;
use crate::repository::repository_error::RepositoryError;
use vstd::prelude::*;

verus! {

#[derive(Debug, Clone, PartialEq)]
pub enum DeleteOutboundShipmentError {
    InvoiceDoesNotExist,
    DatabaseError(RepositoryError),
    NotThisStoreInvoice,
    CannotEditFinalised,
    InvoiceLinesExists(Vec<InvoiceLineRow>),
    NotAnOutboundShipment,
}

} // verus!
