//! A model of local storage, to say what applying translated records does.
//!
//! Storage itself is not part of the library. The model holds what the
//! translators rely on: a table is a map from ids to rows, an upsert puts a
//! row under its id whether or not one was there, and a delete removes the
//! row of an id if there is one.

use crate::repository::local_data::LocalDataView;
use crate::repository::sync_buffer::SyncBufferRowView;
use crate::sync::SyncTranslationErrorView;
use crate::sync::pull::pull_from;
use crate::sync::translations::{
    IntegrationRecordsView, PullDeleteRecordTable, PullDeleteRecordView, PullUpsertRecordView,
    SyncTranslation,
};
use vstd::prelude::*;

verus! {

/// The local tables that translated records are written to.
pub enum StorageTable {
    /// A table in which the central server may delete.
    Deletable(PullDeleteRecordTable),
    Program,
    ProgramRequisitionSettings,
    ProgramRequisitionOrderType,
}

/// The place of a row: its table and its id.
pub struct StorageKey {
    pub table: StorageTable,
    pub id: Seq<char>,
}

/// The rows of local storage, each at its place.
pub type Storage = Map<StorageKey, PullUpsertRecordView>;

/// The place that an upsert writes to.
pub open spec fn upsert_key(record: PullUpsertRecordView) -> StorageKey {
    match record {
        PullUpsertRecordView::MasterList(row) => StorageKey {
            table: StorageTable::Deletable(PullDeleteRecordTable::MasterList),
            id: row.id,
        },
        PullUpsertRecordView::Program(row) => StorageKey {
            table: StorageTable::Program,
            id: row.id,
        },
        PullUpsertRecordView::ProgramRequisitionSettings(row) => StorageKey {
            table: StorageTable::ProgramRequisitionSettings,
            id: row.id,
        },
        PullUpsertRecordView::ProgramRequisitionOrderType(row) => StorageKey {
            table: StorageTable::ProgramRequisitionOrderType,
            id: row.id,
        },
    }
}

/// The place that a delete empties.
pub open spec fn delete_key(record: PullDeleteRecordView) -> StorageKey {
    StorageKey { table: StorageTable::Deletable(record.table), id: record.id }
}

/// Storage after the first `n` upserts, applied in their order.
pub open spec fn apply_upserts(
    storage: Storage,
    upserts: Seq<PullUpsertRecordView>,
    n: nat,
) -> Storage
    decreases n,
{
    if n == 0 || n > upserts.len() {
        storage
    } else {
        apply_upserts(storage, upserts, (n - 1) as nat).insert(
            upsert_key(upserts[n - 1]),
            upserts[n - 1],
        )
    }
}

/// Storage after the first `n` deletes, applied in their order.
pub open spec fn apply_deletes(
    storage: Storage,
    deletes: Seq<PullDeleteRecordView>,
    n: nat,
) -> Storage
    decreases n,
{
    if n == 0 || n > deletes.len() {
        storage
    } else {
        apply_deletes(storage, deletes, (n - 1) as nat).remove(delete_key(deletes[n - 1]))
    }
}

/// Storage after one batch of translated records: the upserts in their
/// order, then the deletes in theirs.
pub open spec fn integrate(storage: Storage, records: IntegrationRecordsView) -> Storage {
    apply_deletes(
        apply_upserts(storage, records.upserts, records.upserts.len()),
        records.deletes,
        records.deletes.len(),
    )
}

/// What the first `n` upserts leave at each place that they write to: the
/// row of the last of them that writes there.
pub open spec fn written(upserts: Seq<PullUpsertRecordView>, n: nat) -> Storage
    decreases n,
{
    if n == 0 || n > upserts.len() {
        Map::empty()
    } else {
        written(upserts, (n - 1) as nat).insert(upsert_key(upserts[n - 1]), upserts[n - 1])
    }
}

/// The places that the first `n` deletes empty.
pub open spec fn emptied(deletes: Seq<PullDeleteRecordView>, n: nat) -> Set<StorageKey>
    decreases n,
{
    if n == 0 || n > deletes.len() {
        Set::empty()
    } else {
        emptied(deletes, (n - 1) as nat).insert(delete_key(deletes[n - 1]))
    }
}

/// Upserts overwrite: storage after them is storage before them, with what
/// they wrote laid over it.
pub proof fn lemma_upserts_overwrite(storage: Storage, upserts: Seq<PullUpsertRecordView>, n: nat)
    requires
        n <= upserts.len(),
    ensures
        apply_upserts(storage, upserts, n) == storage.union_prefer_right(written(upserts, n)),
    decreases n,
{
    if n == 0 {
        assert(storage =~= storage.union_prefer_right(Map::empty()));
    } else {
        lemma_upserts_overwrite(storage, upserts, (n - 1) as nat);
        let before = written(upserts, (n - 1) as nat);
        let key = upsert_key(upserts[n - 1]);
        assert(storage.union_prefer_right(before).insert(key, upserts[n - 1])
            =~= storage.union_prefer_right(before.insert(key, upserts[n - 1])));
    }
}

/// Deletes remove: storage after them is storage before them without the
/// places that they empty.
pub proof fn lemma_deletes_remove(storage: Storage, deletes: Seq<PullDeleteRecordView>, n: nat)
    requires
        n <= deletes.len(),
    ensures
        apply_deletes(storage, deletes, n) == storage.remove_keys(emptied(deletes, n)),
    decreases n,
{
    if n == 0 {
        assert(storage =~= storage.remove_keys(Set::empty()));
    } else {
        lemma_deletes_remove(storage, deletes, (n - 1) as nat);
        let before = emptied(deletes, (n - 1) as nat);
        let key = delete_key(deletes[n - 1]);
        assert(storage.remove_keys(before).remove(key) =~= storage.remove_keys(
            before.insert(key),
        ));
    }
}

/// Applying a batch a second time changes nothing.
pub proof fn lemma_integrate_twice(storage: Storage, records: IntegrationRecordsView)
    ensures
        integrate(integrate(storage, records), records) == integrate(storage, records),
{
    let laid = written(records.upserts, records.upserts.len());
    let gone = emptied(records.deletes, records.deletes.len());
    let once = integrate(storage, records);
    lemma_upserts_overwrite(storage, records.upserts, records.upserts.len());
    lemma_deletes_remove(
        storage.union_prefer_right(laid),
        records.deletes,
        records.deletes.len(),
    );
    lemma_upserts_overwrite(once, records.upserts, records.upserts.len());
    lemma_deletes_remove(once.union_prefer_right(laid), records.deletes, records.deletes.len());
    assert(once.union_prefer_right(laid).remove_keys(gone) =~= once);
}

/// Idempotence: a record that is received and translated twice, the local
/// rows being the same both times, leaves storage after both results as it
/// is after the first. The two translations give the same rows under the
/// same ids, since a translation is a function of the record and of the
/// local rows.
pub proof fn lemma_retransmission_is_idempotent<T: SyncTranslation>(
    translators: Seq<T>,
    local: LocalDataView,
    row: SyncBufferRowView,
    storage: Storage,
    first: IntegrationRecordsView,
    second: IntegrationRecordsView,
)
    requires
        pull_from(translators, local, row, 0) == Ok::<
            Option<IntegrationRecordsView>,
            SyncTranslationErrorView,
        >(Some(first)),
        pull_from(translators, local, row, 0) == Ok::<
            Option<IntegrationRecordsView>,
            SyncTranslationErrorView,
        >(Some(second)),
    ensures
        first == second,
        integrate(integrate(storage, first), second) == integrate(storage, first),
{
    lemma_integrate_twice(storage, first);
}

} // verus!
