//! The rules that a line of an invoice must meet before it is added or
//! deleted, and the errors of the single checks.

pub mod inbound_shipment_line;
pub mod outbound_shipment_line;

use vstd::prelude::*;

verus! {

/// A line of this id exists already.
#[derive(Debug, Clone, Copy, PartialEq, Eq)]
pub struct LineAlreadyExists;

#[derive(Debug, Clone, Copy, PartialEq, Eq)]
pub struct NumberOfPacksBelowOne;

#[derive(Debug, Clone, Copy, PartialEq, Eq)]
pub struct ItemNotFound;

#[derive(Debug, Clone, Copy, PartialEq, Eq)]
pub struct StockLineNotFound;

#[derive(Debug, Clone, Copy, PartialEq, Eq)]
pub struct ItemDoesNotMatchStockLine;

#[derive(Debug, Clone, Copy, PartialEq, Eq)]
pub struct BatchIsOnHold;

#[derive(Debug, Clone, Copy, PartialEq, Eq)]
pub struct BatchIsReserved;

/// The line belongs to another invoice, whose id the error holds.
#[derive(Debug, Clone, PartialEq)]
pub struct NotInvoiceLine(pub String);

/// The invoice has a line for the same stock line already; the error holds
/// the id of that line.
#[derive(Debug, Clone, PartialEq)]
pub struct StockLineAlreadyExistsInInvoice(pub String);

#[derive(Debug, Clone, Copy, PartialEq, Eq, Structural)]
pub enum LocationIsOnHoldError {
    LocationIsOnHold,
    LocationNotFound,
}

} // verus!
