//! Translation of logged local changes into records for the central server.

use crate::repository::changelog::{
    ChangelogAction, ChangelogRow, ChangelogRowView, ChangelogTableName,
};
use crate::repository::local_data::{LocalData, LocalDataView};
use crate::sync::{SyncTranslationError, SyncTranslationErrorView, TranslationErrorView};
use crate::sync::translations::{
    central_table_name, table_name_to_central, PushDeleteRecord, PushDeleteRecordView, PushRecord,
    PushRecordView, PushUpsertRecord, PushUpsertRecordView, SyncTranslation,
};
use crate::views::{lemma_views_push, views};
use vstd::prelude::*;

verus! {

/// What the translators at and after `from` make of a logged upsert: the
/// records of the first of them that answers with at least one record, the
/// error of a translator that fails before any has done so, and `None` where
/// none claims the change.
pub open spec fn push_from<T: SyncTranslation>(
    translators: Seq<T>,
    local: LocalDataView,
    changelog: ChangelogRowView,
    from: int,
) -> Result<Option<Seq<PushUpsertRecordView>>, TranslationErrorView>
    decreases translators.len() - from,
{
    if from < 0 || from >= translators.len() {
        Ok(None)
    } else {
        match translators[from].push(local, changelog) {
            Err(e) => Err(e),
            Ok(Some(records)) => if records.len() > 0 {
                Ok(Some(records))
            } else {
                push_from(translators, local, changelog, from + 1)
            },
            Ok(None) => push_from(translators, local, changelog, from + 1),
        }
    }
}

/// A translated record as it is sent: under the cursor of the change.
pub open spec fn stamped(record: PushUpsertRecordView, cursor: i64) -> PushRecordView {
    PushRecordView::Upsert(
        PushUpsertRecordView {
            sync_id: cursor,
            table_name: record.table_name,
            record_id: record.record_id,
            data: record.data,
        },
    )
}

/// The one record that a logged delete is sent as.
pub open spec fn delete_record(changelog: ChangelogRowView) -> PushRecordView {
    PushRecordView::Delete(
        PushDeleteRecordView {
            sync_id: changelog.cursor,
            table_name: central_table_name(changelog.table_name),
            record_id: changelog.record_id,
        },
    )
}

/// The records that one logged change is sent as. A delete is one record,
/// whatever the translators are. An upsert is what the first translator that
/// claims it makes of it, and nothing where none does.
pub open spec fn changelog_records<T: SyncTranslation>(
    translators: Seq<T>,
    local: LocalDataView,
    changelog: ChangelogRowView,
) -> Result<Seq<PushRecordView>, SyncTranslationErrorView> {
    match changelog.row_action {
        ChangelogAction::Delete => Ok(seq![delete_record(changelog)]),
        ChangelogAction::Upsert => match push_from(translators, local, changelog, 0) {
            Err(e) => Err(
                SyncTranslationErrorView {
                    table_name: central_table_name(changelog.table_name),
                    record_id: changelog.record_id,
                    source: e,
                },
            ),
            Ok(None) => Ok(Seq::empty()),
            Ok(Some(records)) => Ok(
                Seq::new(records.len(), |i: int| stamped(records[i], changelog.cursor)),
            ),
        },
    }
}

/// Asks the translators in their order for the records of a logged upsert.
pub fn translate_push_upsert<T: SyncTranslation>(
    translators: &Vec<T>,
    local: &LocalData,
    changelog: &ChangelogRow,
) -> (r: Result<Option<Vec<PushUpsertRecord>>, crate::sync::TranslationError>)
    ensures
        crate::sync::translations::push_outcome(r) == push_from(
            translators@,
            local@,
            changelog@,
            0,
        ),
{
    let mut i: usize = 0;
    while i < translators.len()
        invariant
            i <= translators.len(),
            push_from(translators@, local@, changelog@, 0) == push_from(
                translators@,
                local@,
                changelog@,
                i as int,
            ),
        decreases translators.len() - i,
    {
        match translators[i].try_translate_push(local, changelog) {
            Err(e) => {
                return Err(e);
            },
            Ok(Some(records)) => {
                if records.len() > 0 {
                    return Ok(Some(records));
                }
            },
            Ok(None) => {},
        }
        i += 1;
    }
    Ok(None)
}

/// Translates one logged change and appends its records to `results`.
///
/// A change that no translator claims adds nothing and is no error. On an
/// error `results` stays as it was.
pub fn translate_changelog<T: SyncTranslation>(
    translators: &Vec<T>,
    local: &LocalData,
    changelog: &ChangelogRow,
    results: &mut Vec<PushRecord>,
) -> (r: Result<(), SyncTranslationError>)
    ensures
        match r {
            Ok(()) => changelog_records(translators@, local@, changelog@) is Ok && views(
                final(results)@,
            ) == views(old(results)@) + changelog_records(translators@, local@, changelog@)->Ok_0,
            Err(e) => changelog_records(translators@, local@, changelog@) == Err::<
                Seq<PushRecordView>,
                SyncTranslationErrorView,
            >(e@) && final(results)@ == old(results)@,
        },
{
    match changelog.row_action {
        ChangelogAction::Upsert => {
            match translate_push_upsert(translators, local, changelog) {
                Err(e) => Err(
                    SyncTranslationError {
                        table_name: table_name_to_central(&changelog.table_name).to_owned(),
                        record_id: changelog.record_id.clone(),
                        source: e,
                    },
                ),
                Ok(None) => {
                    assert(views(results@) =~= views(old(results)@) + Seq::empty());
                    Ok(())
                },
                Ok(Some(records)) => {
                    let ghost translated = views(records@);
                    let ghost expected = changelog_records(translators@, local@, changelog@)->Ok_0;
                    for record in it: records
                        invariant
                            views(it.seq()) == translated,
                            expected.len() == translated.len(),
                            forall|i: int|
                                0 <= i < translated.len() ==> #[trigger] expected[i] == stamped(
                                    translated[i],
                                    changelog.cursor,
                                ),
                            views(results@) == views(old(results)@) + expected.take(
                                it.index() as int,
                            ),
                    {
                        let ghost before = results@;
                        results.push(
                            PushRecord::Upsert(
                                PushUpsertRecord {
                                    sync_id: changelog.cursor,
                                    table_name: record.table_name,
                                    record_id: record.record_id,
                                    data: record.data,
                                },
                            ),
                        );
                        proof {
                            lemma_views_push(before, results@.last());
                            assert(expected.take(it.index() + 1) =~= expected.take(
                                it.index() as int,
                            ).push(expected[it.index() as int]));
                            assert(views(results@) =~= views(old(results)@) + expected.take(
                                it.index() + 1,
                            ));
                        }
                    }
                    assert(expected.take(expected.len() as int) =~= expected);
                    Ok(())
                },
            }
        },
        ChangelogAction::Delete => {
            let ghost before = results@;
            results.push(
                PushRecord::Delete(
                    PushDeleteRecord {
                        sync_id: changelog.cursor,
                        table_name: table_name_to_central(&changelog.table_name),
                        record_id: changelog.record_id.clone(),
                    },
                ),
            );
            proof {
                lemma_views_push(before, results@.last());
                assert(views(results@) =~= views(old(results)@) + seq![delete_record(changelog@)]);
            }
            Ok(())
        },
    }
}

/// The records that the first `n` logged changes are sent as, those of each
/// change after those of the change before it, or the error of the first
/// change that cannot be translated.
pub open spec fn changelogs_records<T: SyncTranslation>(
    translators: Seq<T>,
    local: LocalDataView,
    changelogs: Seq<ChangelogRowView>,
    n: nat,
) -> Result<Seq<PushRecordView>, SyncTranslationErrorView>
    decreases n,
{
    if n == 0 || n > changelogs.len() {
        Ok(Seq::empty())
    } else {
        match changelogs_records(translators, local, changelogs, (n - 1) as nat) {
            Err(e) => Err(e),
            Ok(head) => match changelog_records(translators, local, changelogs[n - 1]) {
                Err(e) => Err(e),
                Ok(records) => Ok(head + records),
            },
        }
    }
}

/// The cursor up to which changes have been translated, once all of
/// `changelogs` have been: that of the last of them, and `cursor`, the one
/// reached before, where there are none.
pub open spec fn cursor_after(cursor: i64, changelogs: Seq<ChangelogRowView>) -> i64 {
    if changelogs.len() == 0 {
        cursor
    } else {
        changelogs.last().cursor
    }
}

/// Whether the cursors of the changes never go down from one change to the
/// next.
pub open spec fn ascending(changelogs: Seq<ChangelogRowView>) -> bool {
    forall|i: int, j: int|
        0 <= i <= j < changelogs.len() ==> (#[trigger] changelogs[i]).cursor <= (
        #[trigger] changelogs[j]).cursor
}

/// The places, among the first `n` changes, of the changes that are sent as
/// nothing: the upserts that no translator claims. They are left out, which
/// is no error.
pub open spec fn skipped_changes<T: SyncTranslation>(
    translators: Seq<T>,
    local: LocalDataView,
    changelogs: Seq<ChangelogRowView>,
    n: nat,
) -> Seq<usize>
    decreases n,
{
    if n == 0 || n > changelogs.len() {
        Seq::empty()
    } else {
        let before = skipped_changes(translators, local, changelogs, (n - 1) as nat);
        if changelog_records(translators, local, changelogs[n - 1]) matches Ok(records)
            && records.len() == 0 {
            before.push((n - 1) as usize)
        } else {
            before
        }
    }
}

/// The records of a run of logged changes, and the cursor to resume after.
#[derive(Debug)]
pub struct PushBatch {
    pub records: Vec<PushRecord>,
    /// The cursor of the last change of the run.
    pub cursor: i64,
    /// The places in the run of the changes that no translator claimed.
    pub skipped: Vec<usize>,
}

/// An error among the first `n` changes is the error of every longer run of
/// changes.
pub proof fn lemma_changelogs_error<T: SyncTranslation>(
    translators: Seq<T>,
    local: LocalDataView,
    changelogs: Seq<ChangelogRowView>,
    n: nat,
    m: nat,
)
    requires
        n <= m <= changelogs.len(),
        changelogs_records(translators, local, changelogs, n) is Err,
    ensures
        changelogs_records(translators, local, changelogs, m) == changelogs_records(
            translators,
            local,
            changelogs,
            n,
        ),
    decreases m,
{
    if n < m {
        lemma_changelogs_error(translators, local, changelogs, n, (m - 1) as nat);
    }
}

/// Translates a run of logged changes in the order in which it is given,
/// which is that of their cursors.
///
/// Either every change is translated, and the batch holds the records of
/// all of them and the cursor of the last, or the first change that fails
/// gives the error and there is no batch: the cursor that the caller has
/// kept stays where it was, whatever came before the failure.
///
/// Where the changes come with ascending cursors, the records of the batch
/// do too, and none has a cursor above that of the batch.
pub fn translate_changelogs<T: SyncTranslation>(
    translators: &Vec<T>,
    local: &LocalData,
    changelogs: &Vec<ChangelogRow>,
    cursor: i64,
) -> (r: Result<PushBatch, SyncTranslationError>)
    ensures
        match r {
            Ok(batch) => changelogs_records(
                translators@,
                local@,
                views(changelogs@),
                changelogs@.len(),
            ) == Ok::<Seq<PushRecordView>, SyncTranslationErrorView>(views(batch.records@))
                && batch.cursor == cursor_after(cursor, views(changelogs@)) && batch.skipped@
                == skipped_changes(
                translators@,
                local@,
                views(changelogs@),
                changelogs@.len(),
            ) && (ascending(views(changelogs@)) ==> cursors_ascend_to(
                views(batch.records@),
                batch.cursor as int,
            )),
            Err(e) => changelogs_records(
                translators@,
                local@,
                views(changelogs@),
                changelogs@.len(),
            ) == Err::<Seq<PushRecordView>, SyncTranslationErrorView>(e@),
        },
{
    let mut records: Vec<PushRecord> = Vec::new();
    let mut skipped: Vec<usize> = Vec::new();
    let mut reached = cursor;
    let mut i: usize = 0;
    assert(views(records@) =~= Seq::empty());
    while i < changelogs.len()
        invariant
            i <= changelogs.len(),
            changelogs_records(translators@, local@, views(changelogs@), i as nat) == Ok::<
                Seq<PushRecordView>,
                SyncTranslationErrorView,
            >(views(records@)),
            reached == cursor_after(cursor, views(changelogs@).take(i as int)),
            skipped@ == skipped_changes(translators@, local@, views(changelogs@), i as nat),
        decreases changelogs.len() - i,
    {
        assert(views(changelogs@)[i as int] == changelogs@[i as int]@);
        let before = records.len();
        let ghost head = views(records@);
        match translate_changelog(translators, local, &changelogs[i], &mut records) {
            Err(e) => {
                proof {
                    assert(changelogs_records(
                        translators@,
                        local@,
                        views(changelogs@),
                        (i + 1) as nat,
                    ) == Err::<Seq<PushRecordView>, SyncTranslationErrorView>(e@));
                    lemma_changelogs_error(
                        translators@,
                        local@,
                        views(changelogs@),
                        (i + 1) as nat,
                        changelogs@.len(),
                    );
                }
                return Err(e);
            },
            Ok(()) => {},
        }
        assert(views(records@).len() == head.len() + changelog_records(
            translators@,
            local@,
            changelogs@[i as int]@,
        )->Ok_0.len());
        if records.len() == before {
            skipped.push(i);
        }
        reached = changelogs[i].cursor;
        i += 1;
    }
    proof {
        assert(views(changelogs@).take(changelogs@.len() as int) =~= views(changelogs@));
        if changelogs@.len() > 0 && ascending(views(changelogs@)) {
            lemma_push_keeps_order(translators@, local@, views(changelogs@), changelogs@.len());
        }
    }
    Ok(PushBatch { records, cursor: reached, skipped })
}

/// Every record that a logged change is sent as carries the cursor of the
/// change.
pub proof fn lemma_records_carry_cursor<T: SyncTranslation>(
    translators: Seq<T>,
    local: LocalDataView,
    changelog: ChangelogRowView,
)
    ensures
        changelog_records(translators, local, changelog) matches Ok(records) ==> forall|k: int|
            0 <= k < records.len() ==> (#[trigger] records[k]).cursor() == changelog.cursor,
{
}

/// A logged delete is sent as exactly one delete record under the central
/// server's name for the table, whatever translators there are and whatever
/// they would make of the change.
pub proof fn lemma_delete_needs_no_translator<T: SyncTranslation>(
    translators: Seq<T>,
    local: LocalDataView,
    changelog: ChangelogRowView,
)
    requires
        changelog.row_action == ChangelogAction::Delete,
    ensures
        changelog_records(translators, local, changelog) == Ok::<
            Seq<PushRecordView>,
            SyncTranslationErrorView,
        >(
            seq![
                PushRecordView::Delete(
                    PushDeleteRecordView {
                        sync_id: changelog.cursor,
                        table_name: central_table_name(changelog.table_name),
                        record_id: changelog.record_id,
                    },
                ),
            ],
        ),
        changelog.table_name == ChangelogTableName::Invoice ==> central_table_name(
            changelog.table_name,
        ) == "transact"@,
{
}

/// Whether the cursors of the records never go down from one record to the
/// next, and none is above `bound`.
pub open spec fn cursors_ascend_to(records: Seq<PushRecordView>, bound: int) -> bool {
    &&& forall|i: int, j: int|
        0 <= i <= j < records.len() ==> (#[trigger] records[i]).cursor() <= (
        #[trigger] records[j]).cursor()
    &&& forall|i: int| 0 <= i < records.len() ==> (#[trigger] records[i]).cursor() <= bound
}

/// Order: where the changes come with ascending cursors, their records go
/// out with ascending cursors, and the cursor of the last change is the
/// highest of them all. It is the cursor that a batch hands back.
pub proof fn lemma_push_keeps_order<T: SyncTranslation>(
    translators: Seq<T>,
    local: LocalDataView,
    changelogs: Seq<ChangelogRowView>,
    n: nat,
)
    requires
        ascending(changelogs),
        0 < n <= changelogs.len(),
        changelogs_records(translators, local, changelogs, n) is Ok,
    ensures
        cursors_ascend_to(
            changelogs_records(translators, local, changelogs, n)->Ok_0,
            changelogs[n - 1].cursor as int,
        ),
        forall|k: int| 0 <= k < n ==> (#[trigger] changelogs[k]).cursor <= changelogs[n - 1].cursor,
    decreases n,
{
    let records = changelogs_records(translators, local, changelogs, n)->Ok_0;
    let head = changelogs_records(translators, local, changelogs, (n - 1) as nat)->Ok_0;
    let last = changelog_records(translators, local, changelogs[n - 1])->Ok_0;
    assert(records == head + last);
    lemma_records_carry_cursor(translators, local, changelogs[n - 1]);
    if n > 1 {
        lemma_push_keeps_order(translators, local, changelogs, (n - 1) as nat);
        assert(changelogs[n - 2].cursor <= changelogs[n - 1].cursor);
    } else {
        assert(head.len() == 0);
    }
    let bound = changelogs[n - 1].cursor;
    assert forall|i: int| 0 <= i < records.len() implies (#[trigger] records[i]).cursor()
        <= bound by {
        if i < head.len() {
            assert(records[i] == head[i]);
        } else {
            assert(records[i] == last[i - head.len()]);
        }
    }
    assert forall|i: int, j: int| 0 <= i <= j < records.len() implies (
    #[trigger] records[i]).cursor() <= (#[trigger] records[j]).cursor() by {
        if j < head.len() {
            assert(records[i] == head[i]);
            assert(records[j] == head[j]);
        } else {
            assert(records[j] == last[j - head.len()]);
            assert(records[j].cursor() == bound);
        }
    }
}

} // verus!
