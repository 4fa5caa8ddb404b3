//! Invoices as local storage holds them.

use vstd::prelude::*;

verus! {

/// The two kinds of invoice.
#[derive(Debug, Clone, Copy, PartialEq, Eq, Structural)]
pub enum InvoiceRowType {
    OutboundShipment,
    InboundShipment,
}

/// The states of an invoice, in the order in which an invoice passes them.
#[derive(Debug, Clone, Copy, PartialEq, Eq, Structural)]
pub enum InvoiceRowStatus {
    New,
    Allocated,
    Picked,
    Shipped,
    Delivered,
    Verified,
}

#[derive(Debug, Clone, PartialEq)]
pub struct InvoiceRow {
    pub id: String,
    pub store_id: String,
    pub invoice_type: InvoiceRowType,
    pub status: InvoiceRowStatus,
    pub on_hold: bool,
}

/// A line of an invoice.
#[derive(Debug, Clone, PartialEq)]
pub struct InvoiceLineRow {
    pub id: String,
    pub invoice_id: String,
    pub item_id: String,
    pub stock_line_id: Option<String>,
}

/// A batch of stock of one item.
#[derive(Debug, Clone, PartialEq)]
pub struct StockLineRow {
    pub id: String,
    pub item_id: String,
    pub location_id: Option<String>,
    pub available_number_of_packs: u32,
    pub total_number_of_packs: u32,
    pub on_hold: bool,
}

#[derive(Debug, Clone, PartialEq)]
pub struct ItemRow {
    pub id: String,
    pub name: String,
}

/// The store that an invoice belongs to, with the site that the store is of.
#[derive(Debug, Clone, PartialEq)]
pub struct StoreRow {
    pub id: String,
    pub site_id: i32,
}

/// An invoice together with its store.
#[derive(Debug, Clone, PartialEq)]
pub struct Invoice {
    pub invoice_row: InvoiceRow,
    pub store_row: StoreRow,
}

} // verus!
