//! The translators that the library holds, and the order in which they are
//! asked.

use crate::repository::changelog::{ChangelogRow, ChangelogRowView};
use crate::repository::local_data::{LocalData, LocalDataView};
use crate::repository::sync_buffer::{SyncBufferRow, SyncBufferRowView};
use crate::sync::{SyncTranslationErrorView, TranslationError, TranslationErrorView};
use crate::sync::pull::{
    all_pass_before, lemma_earlier_translator_wins, lemma_unclaimed_record_is_no_error, pull_from,
    translator_pull,
};
use crate::sync::translations::{
    IntegrationRecords, IntegrationRecordsView, LegacyTableName, PullAnswerView,
    PullDeleteRecordTable, PushAnswerView, PushUpsertRecord, SyncTranslation,
};
use crate::sync::translations::master_list::MasterListTranslation;
use vstd::prelude::*;

verus! {

/// The translators, one for each legacy table, and after them the special
/// one that reads records of the table of names a second time.
#[derive(Debug, Clone, Copy, PartialEq, Eq)]
pub enum Translator {
    // Central
    Name,
    Unit,
    Item,
    Store,
    MasterList,
    MasterListLine,
    MasterListNameJoin,
    Report,
    // Remote
    Number,
    Location,
    StockLine,
    Invoice,
    InvoiceLine,
    Stocktake,
    StocktakeLine,
    Requisition,
    RequisitionLine,
    ActivityLog,
    // Remote-Central (site specific)
    NameStoreJoin,
    // Special translations
    NameToNameStoreJoin,
}

impl Translator {
    /// The legacy table that the translator is bound to.
    pub open spec fn legacy_table(self) -> Seq<char> {
        match self {
            Translator::Name => LegacyTableName::NAME@,
            Translator::Unit => LegacyTableName::UNIT@,
            Translator::Item => LegacyTableName::ITEM@,
            Translator::Store => LegacyTableName::STORE@,
            Translator::MasterList => LegacyTableName::LIST_MASTER@,
            Translator::MasterListLine => LegacyTableName::LIST_MASTER_LINE@,
            Translator::MasterListNameJoin => LegacyTableName::LIST_MASTER_NAME_JOIN@,
            Translator::Report => LegacyTableName::REPORT@,
            Translator::Number => LegacyTableName::NUMBER@,
            Translator::Location => LegacyTableName::LOCATION@,
            Translator::StockLine => LegacyTableName::ITEM_LINE@,
            Translator::Invoice => LegacyTableName::TRANSACT@,
            Translator::InvoiceLine => LegacyTableName::TRANS_LINE@,
            Translator::Stocktake => LegacyTableName::STOCKTAKE@,
            Translator::StocktakeLine => LegacyTableName::STOCKTAKE_LINE@,
            Translator::Requisition => LegacyTableName::REQUISITION@,
            Translator::RequisitionLine => LegacyTableName::REQUISITION_LINE@,
            Translator::ActivityLog => LegacyTableName::OM_ACTIVITY_LOG@,
            Translator::NameStoreJoin => LegacyTableName::NAME_STORE_JOIN@,
            Translator::NameToNameStoreJoin => LegacyTableName::NAME@,
        }
    }

    /// Whether the translator is a special one: one that reads the records
    /// of a table which has a translator of its own.
    pub open spec fn special(self) -> bool {
        self is NameToNameStoreJoin
    }

    /// The local table in which the translator deletes, if it translates
    /// deletes at all.
    pub open spec fn deletes_in(self) -> Option<PullDeleteRecordTable> {
        match self {
            Translator::Name => Some(PullDeleteRecordTable::Name),
            Translator::Unit => Some(PullDeleteRecordTable::Unit),
            Translator::Item => Some(PullDeleteRecordTable::Item),
            Translator::Store => Some(PullDeleteRecordTable::Store),
            Translator::MasterList => Some(PullDeleteRecordTable::MasterList),
            Translator::MasterListLine => Some(PullDeleteRecordTable::MasterListLine),
            Translator::MasterListNameJoin => Some(PullDeleteRecordTable::MasterListNameJoin),
            Translator::Report => Some(PullDeleteRecordTable::Report),
            Translator::Invoice => Some(PullDeleteRecordTable::Invoice),
            Translator::InvoiceLine => Some(PullDeleteRecordTable::InvoiceLine),
            Translator::Requisition => Some(PullDeleteRecordTable::Requisition),
            Translator::RequisitionLine => Some(PullDeleteRecordTable::RequisitionLine),
            Translator::NameStoreJoin => Some(PullDeleteRecordTable::NameStoreJoin),
            _ => None,
        }
    }

    /// The legacy table that the translator is bound to.
    pub fn legacy_table_name(&self) -> (r: &'static str)
        ensures
            r@ == self.legacy_table(),
    {
        match self {
            Translator::Name => LegacyTableName::NAME,
            Translator::Unit => LegacyTableName::UNIT,
            Translator::Item => LegacyTableName::ITEM,
            Translator::Store => LegacyTableName::STORE,
            Translator::MasterList => LegacyTableName::LIST_MASTER,
            Translator::MasterListLine => LegacyTableName::LIST_MASTER_LINE,
            Translator::MasterListNameJoin => LegacyTableName::LIST_MASTER_NAME_JOIN,
            Translator::Report => LegacyTableName::REPORT,
            Translator::Number => LegacyTableName::NUMBER,
            Translator::Location => LegacyTableName::LOCATION,
            Translator::StockLine => LegacyTableName::ITEM_LINE,
            Translator::Invoice => LegacyTableName::TRANSACT,
            Translator::InvoiceLine => LegacyTableName::TRANS_LINE,
            Translator::Stocktake => LegacyTableName::STOCKTAKE,
            Translator::StocktakeLine => LegacyTableName::STOCKTAKE_LINE,
            Translator::Requisition => LegacyTableName::REQUISITION,
            Translator::RequisitionLine => LegacyTableName::REQUISITION_LINE,
            Translator::ActivityLog => LegacyTableName::OM_ACTIVITY_LOG,
            Translator::NameStoreJoin => LegacyTableName::NAME_STORE_JOIN,
            Translator::NameToNameStoreJoin => LegacyTableName::NAME,
        }
    }

    /// Whether the translator is a special one.
    pub fn is_special(&self) -> (r: bool)
        ensures
            r == self.special(),
    {
        match self {
            Translator::NameToNameStoreJoin => true,
            _ => false,
        }
    }

    /// The local table in which the translator deletes, if it translates
    /// deletes at all.
    pub fn delete_table(&self) -> (r: Option<PullDeleteRecordTable>)
        ensures
            r == self.deletes_in(),
    {
        match self {
            Translator::Name => Some(PullDeleteRecordTable::Name),
            Translator::Unit => Some(PullDeleteRecordTable::Unit),
            Translator::Item => Some(PullDeleteRecordTable::Item),
            Translator::Store => Some(PullDeleteRecordTable::Store),
            Translator::MasterList => Some(PullDeleteRecordTable::MasterList),
            Translator::MasterListLine => Some(PullDeleteRecordTable::MasterListLine),
            Translator::MasterListNameJoin => Some(PullDeleteRecordTable::MasterListNameJoin),
            Translator::Report => Some(PullDeleteRecordTable::Report),
            Translator::Invoice => Some(PullDeleteRecordTable::Invoice),
            Translator::InvoiceLine => Some(PullDeleteRecordTable::InvoiceLine),
            Translator::Requisition => Some(PullDeleteRecordTable::Requisition),
            Translator::RequisitionLine => Some(PullDeleteRecordTable::RequisitionLine),
            Translator::NameStoreJoin => Some(PullDeleteRecordTable::NameStoreJoin),
            _ => None,
        }
    }
}

impl SyncTranslation for Translator {
    /// Of upserts the library translates those of master lists.
    open spec fn pull_upsert(&self, local: LocalDataView, row: SyncBufferRowView) -> PullAnswerView {
        match self {
            Translator::MasterList => (MasterListTranslation {}).pull_upsert(local, row),
            _ => Ok(None),
        }
    }

    /// A translator claims the deletes of its table, and answers with the
    /// one row to delete in the local table that it fills.
    open spec fn pull_delete(&self, local: LocalDataView, row: SyncBufferRowView) -> PullAnswerView {
        match self.deletes_in() {
            Some(table) => if row.table_name == self.legacy_table() {
                Ok(Some(IntegrationRecordsView::from_delete(row.record_id, table)))
            } else {
                Ok(None)
            },
            None => Ok(None),
        }
    }

    open spec fn push(&self, local: LocalDataView, changelog: ChangelogRowView) -> PushAnswerView {
        Ok(None)
    }

    fn try_translate_pull_upsert(&self, local: &LocalData, row: &SyncBufferRow) -> (r: Result<
        Option<IntegrationRecords>,
        TranslationError,
    >) {
        match self {
            Translator::MasterList => (MasterListTranslation {}).try_translate_pull_upsert(
                local,
                row,
            ),
            _ => Ok(None),
        }
    }

    fn try_translate_pull_delete(&self, local: &LocalData, row: &SyncBufferRow) -> (r: Result<
        Option<IntegrationRecords>,
        TranslationError,
    >) {
        match self.delete_table() {
            Some(table) => {
                if row.table_name == self.legacy_table_name().to_owned() {
                    Ok(Some(IntegrationRecords::from_delete(row.record_id.as_str(), table)))
                } else {
                    Ok(None)
                }
            },
            None => Ok(None),
        }
    }

    fn try_translate_push(&self, local: &LocalData, changelog: &ChangelogRow) -> (r: Result<
        Option<Vec<PushUpsertRecord>>,
        TranslationError,
    >) {
        Ok(None)
    }
}

/// The list of all translators, in the order in which they are asked.
pub open spec fn registry() -> Seq<Translator> {
    seq![
        Translator::Name,
        Translator::Unit,
        Translator::Item,
        Translator::Store,
        Translator::MasterList,
        Translator::MasterListLine,
        Translator::MasterListNameJoin,
        Translator::Report,
        Translator::Number,
        Translator::Location,
        Translator::StockLine,
        Translator::Invoice,
        Translator::InvoiceLine,
        Translator::Stocktake,
        Translator::StocktakeLine,
        Translator::Requisition,
        Translator::RequisitionLine,
        Translator::ActivityLog,
        Translator::NameStoreJoin,
        Translator::NameToNameStoreJoin,
    ]
}

/// Whether every special translator of a list stands after every translator
/// that is not special.
pub open spec fn specials_last(translators: Seq<Translator>) -> bool {
    forall|i: int, j: int|
        0 <= i < translators.len() && 0 <= j < translators.len() && (
        #[trigger] translators[i]).special() && !(#[trigger] translators[j]).special() ==> j < i
}

/// The list of all translators, in the order in which they are asked. The
/// list is the same at every call, and its special translators stand last.
pub fn all_translators() -> (r: Vec<Translator>)
    ensures
        r@ == registry(),
        specials_last(r@),
{
    let r = vec![
        // Central
        Translator::Name,
        Translator::Unit,
        Translator::Item,
        Translator::Store,
        Translator::MasterList,
        Translator::MasterListLine,
        Translator::MasterListNameJoin,
        Translator::Report,
        // Remote
        Translator::Number,
        Translator::Location,
        Translator::StockLine,
        Translator::Invoice,
        Translator::InvoiceLine,
        Translator::Stocktake,
        Translator::StocktakeLine,
        Translator::Requisition,
        Translator::RequisitionLine,
        Translator::ActivityLog,
        // Remote-Central (site specific)
        Translator::NameStoreJoin,
        // Special translations
        Translator::NameToNameStoreJoin,
    ];
    assert(r@ =~= registry());
    proof {
        lemma_registry_order();
    }
    r
}

/// In the list of all translators the special ones stand last.
pub proof fn lemma_registry_order()
    ensures
        specials_last(registry()),
{
    let all = registry();
    assert forall|i: int, j: int|
        0 <= i < all.len() && 0 <= j < all.len() && (#[trigger] all[i]).special() && !(
        #[trigger] all[j]).special() implies j < i by {
        assert(all.len() == 20);
        assert(i == 19);
        assert(all[19].special());
    }
}

/// Precedence in a list whose special translators stand last: where a
/// translator that is not special has a result for a record, and the
/// translators before it leave the record to it, that result is the
/// outcome, whatever a special translator makes of the record. The special
/// one stands later in the list and is not asked.
pub proof fn lemma_generic_wins_over_special(
    translators: Seq<Translator>,
    local: LocalDataView,
    row: SyncBufferRowView,
    generic: int,
    special: int,
)
    requires
        specials_last(translators),
        0 <= generic < translators.len(),
        0 <= special < translators.len(),
        !translators[generic].special(),
        translators[special].special(),
        all_pass_before(translators, local, row, generic),
        translator_pull(translators[generic], local, row) matches Ok(Some(_)),
    ensures
        generic < special,
        pull_from(translators, local, row, 0) == Ok::<
            Option<IntegrationRecordsView>,
            SyncTranslationErrorView,
        >(translator_pull(translators[generic], local, row)->Ok_0),
{
    lemma_earlier_translator_wins(translators, local, row, generic, special);
}

/// A record of a table that no translator of the list is bound to is
/// claimed by none of them: its translation gives no rows and no error.
pub proof fn lemma_unknown_table_is_unclaimed(local: LocalDataView, row: SyncBufferRowView)
    requires
        forall|k: int|
            0 <= k < registry().len() ==> (#[trigger] registry()[k]).legacy_table()
                != row.table_name,
    ensures
        pull_from(registry(), local, row, 0) == Ok::<
            Option<IntegrationRecordsView>,
            SyncTranslationErrorView,
        >(None),
{
    let all = registry();
    assert forall|k: int| 0 <= k < all.len() implies #[trigger] translator_pull(
        all[k],
        local,
        row,
    ) == Ok::<Option<IntegrationRecordsView>, TranslationErrorView>(None) by {
        assert(all[k].legacy_table() != row.table_name);
        if all[k] is MasterList {
            assert(row.table_name != LegacyTableName::LIST_MASTER@);
        }
    }
    lemma_unclaimed_record_is_no_error(all, local, row);
}

} // verus!
