//! Mutations of the lines of outbound shipments, and the structured errors
//! that they share.

pub mod update;

use vstd::prelude::*;

verus! {

/// The invoice has a line for the same stock line already; the error holds
/// the id of that line.
#[derive(Debug, Clone, PartialEq)]
pub struct StockLineAlreadyExistsInInvoice(pub String);

#[derive(Debug, Clone, Copy, PartialEq, Eq)]
pub struct LocationIsOnHold;

#[derive(Debug, Clone, Copy, PartialEq, Eq)]
pub struct LocationNotFound;

#[derive(Debug, Clone, Copy, PartialEq, Eq)]
pub struct StockLineIsOnHold;

/// The stock line has fewer packs available than the line asks for.
#[derive(Debug, Clone, PartialEq)]
pub struct NotEnoughStockForReduction {
    pub stock_line_id: String,
    pub line_id: Option<String>,
}

} // verus!
