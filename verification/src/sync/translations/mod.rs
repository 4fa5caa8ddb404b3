//! The translators, the list of them, and the two directions of translation.

pub mod expansion;
pub mod master_list;
pub mod registry;

use crate::repository::changelog::{ChangelogRow, ChangelogRowView, ChangelogTableName};
use crate::repository::local_data::{LocalData, LocalDataView};
use crate::repository::rows::{
    MasterListRow, MasterListRowView, ProgramRequisitionOrderTypeRow,
    ProgramRequisitionOrderTypeRowView, ProgramRequisitionSettingsRow,
    ProgramRequisitionSettingsRowView, ProgramRow, ProgramRowView,
};
use crate::repository::sync_buffer::{SyncBufferRow, SyncBufferRowView};
use crate::sync::{TranslationError, TranslationErrorView};
use crate::views::views;
use serde_json::Value;
use vstd::prelude::*;

verus! {

/// The names of the tables of the central server.
pub struct LegacyTableName;

impl LegacyTableName {
    // Central
    pub const NAME: &'static str = "name";

    pub const UNIT: &'static str = "unit";

    pub const ITEM: &'static str = "item";

    pub const STORE: &'static str = "store";

    pub const LIST_MASTER: &'static str = "list_master";

    pub const LIST_MASTER_LINE: &'static str = "list_master_line";

    pub const LIST_MASTER_NAME_JOIN: &'static str = "list_master_name_join";

    pub const REPORT: &'static str = "report";

    // Remote
    pub const NUMBER: &'static str = "number";

    pub const LOCATION: &'static str = "Location";

    pub const ITEM_LINE: &'static str = "item_line";

    pub const TRANSACT: &'static str = "transact";

    pub const TRANS_LINE: &'static str = "trans_line";

    pub const STOCKTAKE: &'static str = "Stock_take";

    pub const STOCKTAKE_LINE: &'static str = "Stock_take_lines";

    pub const REQUISITION: &'static str = "requisition";

    pub const REQUISITION_LINE: &'static str = "requisition_line";

    pub const OM_ACTIVITY_LOG: &'static str = "activity_log";

    // Remote-Central (site specific)
    pub const NAME_STORE_JOIN: &'static str = "name_store_join";
}

/// A row to insert, or to replace the row of the same id with.
#[derive(Debug, Clone, PartialEq)]
pub enum PullUpsertRecord {
    MasterList(MasterListRow),
    Program(ProgramRow),
    ProgramRequisitionSettings(ProgramRequisitionSettingsRow),
    ProgramRequisitionOrderType(ProgramRequisitionOrderTypeRow),
}

pub enum PullUpsertRecordView {
    MasterList(MasterListRowView),
    Program(ProgramRowView),
    ProgramRequisitionSettings(ProgramRequisitionSettingsRowView),
    ProgramRequisitionOrderType(ProgramRequisitionOrderTypeRowView),
}

impl View for PullUpsertRecord {
    type V = PullUpsertRecordView;

    open spec fn view(&self) -> PullUpsertRecordView {
        match self {
            PullUpsertRecord::MasterList(row) => PullUpsertRecordView::MasterList(row@),
            PullUpsertRecord::Program(row) => PullUpsertRecordView::Program(row@),
            PullUpsertRecord::ProgramRequisitionSettings(row) => {
                PullUpsertRecordView::ProgramRequisitionSettings(row@)
            },
            PullUpsertRecord::ProgramRequisitionOrderType(row) => {
                PullUpsertRecordView::ProgramRequisitionOrderType(row@)
            },
        }
    }
}

/// The local tables that the central server may delete rows of.
#[derive(Debug, Clone, Copy, PartialEq, Eq)]
pub enum PullDeleteRecordTable {
    // Central
    Unit,
    Item,
    Store,
    MasterList,
    MasterListLine,
    MasterListNameJoin,
    Report,
    Name,
    // Remote-Central (site specific)
    NameStoreJoin,
    // Remote (for other party of transfers)
    Invoice,
    InvoiceLine,
    Requisition,
    RequisitionLine,
}

/// A row to delete.
#[derive(Debug, Clone, PartialEq)]
pub struct PullDeleteRecord {
    pub id: String,
    pub table: PullDeleteRecordTable,
}

pub struct PullDeleteRecordView {
    pub id: Seq<char>,
    pub table: PullDeleteRecordTable,
}

impl View for PullDeleteRecord {
    type V = PullDeleteRecordView;

    open spec fn view(&self) -> PullDeleteRecordView {
        PullDeleteRecordView { id: self.id@, table: self.table }
    }
}

/// What one received record asks of local storage: rows to upsert and rows
/// to delete, each list in its order. Storage takes the whole of it in one
/// transaction.
#[derive(Debug, Clone, PartialEq)]
pub struct IntegrationRecords {
    pub upserts: Vec<PullUpsertRecord>,
    pub deletes: Vec<PullDeleteRecord>,
}

pub struct IntegrationRecordsView {
    pub upserts: Seq<PullUpsertRecordView>,
    pub deletes: Seq<PullDeleteRecordView>,
}

impl View for IntegrationRecords {
    type V = IntegrationRecordsView;

    open spec fn view(&self) -> IntegrationRecordsView {
        IntegrationRecordsView { upserts: views(self.upserts@), deletes: views(self.deletes@) }
    }
}

impl IntegrationRecordsView {
    pub open spec fn empty() -> IntegrationRecordsView {
        IntegrationRecordsView { upserts: Seq::empty(), deletes: Seq::empty() }
    }

    pub open spec fn from_upsert(record: PullUpsertRecordView) -> IntegrationRecordsView {
        IntegrationRecordsView { upserts: seq![record], deletes: Seq::empty() }
    }

    pub open spec fn from_upserts(records: Seq<PullUpsertRecordView>) -> IntegrationRecordsView {
        IntegrationRecordsView { upserts: records, deletes: Seq::empty() }
    }

    pub open spec fn from_delete(
        id: Seq<char>,
        table: PullDeleteRecordTable,
    ) -> IntegrationRecordsView {
        IntegrationRecordsView {
            upserts: Seq::empty(),
            deletes: seq![PullDeleteRecordView { id, table }],
        }
    }

    /// The records of `self` followed by those of `other`.
    pub open spec fn join(self, other: IntegrationRecordsView) -> IntegrationRecordsView {
        IntegrationRecordsView {
            upserts: self.upserts + other.upserts,
            deletes: self.deletes + other.deletes,
        }
    }

    pub open spec fn is_empty(self) -> bool {
        self.upserts.len() == 0 && self.deletes.len() == 0
    }
}

impl IntegrationRecords {
    pub fn new() -> (r: IntegrationRecords)
        ensures
            r@ == IntegrationRecordsView::empty(),
    {
        let r = IntegrationRecords { upserts: Vec::new(), deletes: Vec::new() };
        assert(r@.upserts =~= Seq::empty() && r@.deletes =~= Seq::empty());
        r
    }

    pub fn from_upsert(r: PullUpsertRecord) -> (records: IntegrationRecords)
        ensures
            records@ == IntegrationRecordsView::from_upsert(r@),
    {
        let mut upserts = Vec::new();
        upserts.push(r);
        let records = IntegrationRecords { upserts, deletes: Vec::new() };
        assert(records@.upserts =~= seq![r@] && records@.deletes =~= Seq::empty());
        records
    }

    pub fn from_upserts(rows: Vec<PullUpsertRecord>) -> (records: IntegrationRecords)
        ensures
            records@ == IntegrationRecordsView::from_upserts(views(rows@)),
    {
        let records = IntegrationRecords { upserts: rows, deletes: Vec::new() };
        assert(records@.deletes =~= Seq::empty());
        records
    }

    pub fn from_delete(id: &str, table: PullDeleteRecordTable) -> (records: IntegrationRecords)
        ensures
            records@ == IntegrationRecordsView::from_delete(id@, table),
    {
        let mut deletes = Vec::new();
        deletes.push(PullDeleteRecord { id: id.to_owned(), table });
        let records = IntegrationRecords { upserts: Vec::new(), deletes };
        assert(records@.upserts =~= Seq::empty());
        assert(records@.deletes =~= seq![PullDeleteRecordView { id: id@, table }]);
        records
    }

    /// The records of `self` followed by those of `other`.
    pub fn join(self, other: IntegrationRecords) -> (records: IntegrationRecords)
        ensures
            records@ == self@.join(other@),
    {
        let mut upserts = self.upserts;
        let mut deletes = self.deletes;
        let mut other_upserts = other.upserts;
        let mut other_deletes = other.deletes;
        upserts.append(&mut other_upserts);
        deletes.append(&mut other_deletes);
        let records = IntegrationRecords { upserts, deletes };
        assert(records@.upserts =~= self@.upserts + other@.upserts);
        assert(records@.deletes =~= self@.deletes + other@.deletes);
        records
    }

    pub fn is_empty(&self) -> (r: bool)
        ensures
            r == self@.is_empty(),
    {
        self.upserts.is_empty() && self.deletes.is_empty()
    }
}

/// What a translator answers to a received record: the rows that the record
/// stands for, `None` where the translator does not claim the record, or
/// the error that stops the translation.
pub type PullAnswerView = Result<Option<IntegrationRecordsView>, TranslationErrorView>;

/// What a translator answers to a logged change: the records to send,
/// `None` where the translator does not claim the change, or the error that
/// stops the translation.
pub type PushAnswerView = Result<Option<Seq<PushUpsertRecordView>>, TranslationErrorView>;

/// The outcome of a translator on a received record, as a value of
/// specifications.
pub open spec fn pull_outcome(
    r: Result<Option<IntegrationRecords>, TranslationError>,
) -> PullAnswerView {
    match r {
        Ok(Some(records)) => Ok(Some(records@)),
        Ok(None) => Ok(None),
        Err(e) => Err(e@),
    }
}

/// The outcome of a translator on a logged change, as a value of
/// specifications.
pub open spec fn push_outcome(
    r: Result<Option<Vec<PushUpsertRecord>>, TranslationError>,
) -> PushAnswerView {
    match r {
        Ok(Some(records)) => Ok(Some(views(records@))),
        Ok(None) => Ok(None),
        Err(e) => Err(e@),
    }
}

/// A translator: it is bound to one legacy table and offers up to three
/// operations on the records of that table. An operation that it does not
/// offer answers `Ok(None)`, as does every operation on a record of another
/// table.
///
/// Each operation is a function of its arguments: the three specification
/// functions say which, and the executable methods compute them.
pub trait SyncTranslation {
    /// The rows that a received upsert stands for.
    spec fn pull_upsert(&self, local: LocalDataView, row: SyncBufferRowView) -> PullAnswerView;

    /// The rows that a received delete removes.
    spec fn pull_delete(&self, local: LocalDataView, row: SyncBufferRowView) -> PullAnswerView;

    /// The legacy records that a logged upsert is sent as.
    spec fn push(&self, local: LocalDataView, changelog: ChangelogRowView) -> PushAnswerView;

    fn try_translate_pull_upsert(&self, local: &LocalData, row: &SyncBufferRow) -> (r: Result<
        Option<IntegrationRecords>,
        TranslationError,
    >)
        ensures
            pull_outcome(r) == self.pull_upsert(local@, row@),
    ;

    fn try_translate_pull_delete(&self, local: &LocalData, row: &SyncBufferRow) -> (r: Result<
        Option<IntegrationRecords>,
        TranslationError,
    >)
        ensures
            pull_outcome(r) == self.pull_delete(local@, row@),
    ;

    fn try_translate_push(&self, local: &LocalData, changelog: &ChangelogRow) -> (r: Result<
        Option<Vec<PushUpsertRecord>>,
        TranslationError,
    >)
        ensures
            push_outcome(r) == self.push(local@, changelog@),
    ;
}

/// A row in the format of the central server, to be sent there.
#[derive(Debug)]
pub struct PushUpsertRecord {
    /// The cursor of the logged change that the record stems from.
    pub sync_id: i64,
    /// The translated table name
    pub table_name: &'static str,
    pub record_id: String,
    pub data: Value,
}

pub struct PushUpsertRecordView {
    pub sync_id: i64,
    pub table_name: Seq<char>,
    pub record_id: Seq<char>,
    pub data: Value,
}

impl View for PushUpsertRecord {
    type V = PushUpsertRecordView;

    open spec fn view(&self) -> PushUpsertRecordView {
        PushUpsertRecordView {
            sync_id: self.sync_id,
            table_name: self.table_name@,
            record_id: self.record_id@,
            data: self.data,
        }
    }
}

/// The request to delete a row of the central server.
#[derive(Debug)]
pub struct PushDeleteRecord {
    /// The cursor of the logged change that the record stems from.
    pub sync_id: i64,
    /// The translated table name
    pub table_name: &'static str,
    pub record_id: String,
}

pub struct PushDeleteRecordView {
    pub sync_id: i64,
    pub table_name: Seq<char>,
    pub record_id: Seq<char>,
}

impl View for PushDeleteRecord {
    type V = PushDeleteRecordView;

    open spec fn view(&self) -> PushDeleteRecordView {
        PushDeleteRecordView {
            sync_id: self.sync_id,
            table_name: self.table_name@,
            record_id: self.record_id@,
        }
    }
}

#[derive(Debug)]
pub enum PushRecord {
    Upsert(PushUpsertRecord),
    Delete(PushDeleteRecord),
}

pub enum PushRecordView {
    Upsert(PushUpsertRecordView),
    Delete(PushDeleteRecordView),
}

impl View for PushRecord {
    type V = PushRecordView;

    open spec fn view(&self) -> PushRecordView {
        match self {
            PushRecord::Upsert(record) => PushRecordView::Upsert(record@),
            PushRecord::Delete(record) => PushRecordView::Delete(record@),
        }
    }
}

impl PushRecordView {
    /// The cursor of the logged change that the record stems from.
    pub open spec fn cursor(self) -> i64 {
        match self {
            PushRecordView::Upsert(record) => record.sync_id,
            PushRecordView::Delete(record) => record.sync_id,
        }
    }
}

impl PushRecord {
    /// The cursor of the logged change that the record stems from.
    pub fn cursor(&self) -> (r: i64)
        ensures
            r == self@.cursor(),
    {
        match self {
            PushRecord::Upsert(record) => record.sync_id,
            PushRecord::Delete(record) => record.sync_id,
        }
    }
}

/// The name that the central server has for a local table.
pub open spec fn central_table_name(table: ChangelogTableName) -> Seq<char> {
    match table {
        ChangelogTableName::Number => LegacyTableName::NUMBER@,
        ChangelogTableName::Location => LegacyTableName::LOCATION@,
        ChangelogTableName::StockLine => LegacyTableName::ITEM_LINE@,
        ChangelogTableName::Name => LegacyTableName::NAME@,
        ChangelogTableName::NameStoreJoin => LegacyTableName::NAME_STORE_JOIN@,
        ChangelogTableName::Invoice => LegacyTableName::TRANSACT@,
        ChangelogTableName::InvoiceLine => LegacyTableName::TRANS_LINE@,
        ChangelogTableName::Stocktake => LegacyTableName::STOCKTAKE@,
        ChangelogTableName::StocktakeLine => LegacyTableName::STOCKTAKE_LINE@,
        ChangelogTableName::Requisition => LegacyTableName::REQUISITION@,
        ChangelogTableName::RequisitionLine => LegacyTableName::REQUISITION_LINE@,
        ChangelogTableName::ActivityLog => LegacyTableName::OM_ACTIVITY_LOG@,
    }
}

/// The name that the central server has for a local table. Every table has one.
pub fn table_name_to_central(table: &ChangelogTableName) -> (r: &'static str)
    ensures
        r@ == central_table_name(*table),
{
    match table {
        ChangelogTableName::Number => LegacyTableName::NUMBER,
        ChangelogTableName::Location => LegacyTableName::LOCATION,
        ChangelogTableName::StockLine => LegacyTableName::ITEM_LINE,
        ChangelogTableName::Name => LegacyTableName::NAME,
        ChangelogTableName::NameStoreJoin => LegacyTableName::NAME_STORE_JOIN,
        ChangelogTableName::Invoice => LegacyTableName::TRANSACT,
        ChangelogTableName::InvoiceLine => LegacyTableName::TRANS_LINE,
        ChangelogTableName::Stocktake => LegacyTableName::STOCKTAKE,
        ChangelogTableName::StocktakeLine => LegacyTableName::STOCKTAKE_LINE,
        ChangelogTableName::Requisition => LegacyTableName::REQUISITION,
        ChangelogTableName::RequisitionLine => LegacyTableName::REQUISITION_LINE,
        ChangelogTableName::ActivityLog => LegacyTableName::OM_ACTIVITY_LOG,
    }
}

} // verus!
