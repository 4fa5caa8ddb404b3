//! Adding a line to an outbound shipment.

pub mod validate;

use crate::repository::repository_error::RepositoryError;
use vstd::prelude::*;

verus! {

/// The line to add: how many packs of which stock line go onto which
/// invoice.
#[derive(Debug, Clone, PartialEq)]
pub struct InsertOutboundShipmentLine {
    pub id: String,
    pub invoice_id: String,
    pub item_id: String,
    pub stock_line_id: String,
    pub number_of_packs: u32,
}

#[derive(Debug, Clone, PartialEq)]
pub enum InsertOutboundShipmentLineError {
    LineAlreadyExists,
    DatabaseError(RepositoryError),
    InvoiceDoesNotExist,
    NotAnOutboundShipment,
    NotThisStoreInvoice,
    CannotEditFinalised,
    StockLineNotFound,
    NumberOfPacksBelowOne,
    ItemNotFound,
    ItemDoesNotMatchStockLine,
    LocationIsOnHold,
    LocationNotFound,
    StockLineAlreadyExistsInInvoice(String),
    BatchIsOnHold,
    ReductionBelowZero { stock_line_id: String },
}

} // verus!
