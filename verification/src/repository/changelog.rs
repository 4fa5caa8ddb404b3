//! The log of local changes that are to be sent to the central server.

use vstd::prelude::*;

verus! {

/// The local tables whose changes are logged.
#[derive(Debug, Clone, Copy, PartialEq, Eq)]
pub enum ChangelogTableName {
    Number,
    Location,
    StockLine,
    Name,
    NameStoreJoin,
    Invoice,
    InvoiceLine,
    Stocktake,
    StocktakeLine,
    Requisition,
    RequisitionLine,
    ActivityLog,
}

#[derive(Debug, Clone, Copy, PartialEq, Eq)]
pub enum ChangelogAction {
    Upsert,
    Delete,
}

/// One logged change. Storage hands out cursors in ascending order and never
/// twice.
#[derive(Debug, Clone, PartialEq)]
pub struct ChangelogRow {
    pub cursor: i64,
    pub table_name: ChangelogTableName,
    pub record_id: String,
    pub row_action: ChangelogAction,
}

pub struct ChangelogRowView {
    pub cursor: i64,
    pub table_name: ChangelogTableName,
    pub record_id: Seq<char>,
    pub row_action: ChangelogAction,
}

impl View for ChangelogRow {
    type V = ChangelogRowView;

    open spec fn view(&self) -> ChangelogRowView {
        ChangelogRowView {
            cursor: self.cursor,
            table_name: self.table_name,
            record_id: self.record_id@,
            row_action: self.row_action,
        }
    }
}

} // verus!
