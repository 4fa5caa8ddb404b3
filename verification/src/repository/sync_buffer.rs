//! Records received from the central server, held until they are translated.

use vstd::prelude::*;

verus! {

/// What the central server asks to be done with a record.
#[derive(Debug, Clone, Copy, PartialEq, Eq)]
pub enum SyncBufferAction {
    Upsert,
    Delete,
}

/// One record as it was received: the legacy table it belongs to, its id
/// there, and for an upsert its body as JSON text.
#[derive(Debug, Clone, PartialEq)]
pub struct SyncBufferRow {
    pub record_id: String,
    pub table_name: String,
    pub action: SyncBufferAction,
    pub data: String,
}

pub struct SyncBufferRowView {
    pub record_id: Seq<char>,
    pub table_name: Seq<char>,
    pub action: SyncBufferAction,
    pub data: Seq<char>,
}

impl View for SyncBufferRow {
    type V = SyncBufferRowView;

    open spec fn view(&self) -> SyncBufferRowView {
        SyncBufferRowView {
            record_id: self.record_id@,
            table_name: self.table_name@,
            action: self.action,
            data: self.data@,
        }
    }
}

} // verus!
