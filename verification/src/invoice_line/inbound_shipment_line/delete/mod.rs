//! Deleting a line of an inbound shipment.

pub mod validate;

use crate::repository::repository_error::RepositoryError;
use vstd::prelude::*;

verus! {

#[derive(Debug, Clone, PartialEq)]
pub enum DeleteInboundShipmentLineError {
    LineDoesNotExist,
    DatabaseError(RepositoryError),
    InvoiceDoesNotExist,
    NotAnInboundShipment,
    NotThisStoreInvoice,
    NotThisInvoiceLine(String),
    CannotEditFinalised,
    BatchIsReserved,
}

} // verus!
