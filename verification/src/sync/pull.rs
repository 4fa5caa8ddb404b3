//! Translation of received records into the rows that they stand for.

use crate::repository::local_data::{LocalData, LocalDataView};
use crate::repository::sync_buffer::{SyncBufferAction, SyncBufferRow, SyncBufferRowView};
use crate::sync::{SyncTranslationError, SyncTranslationErrorView, TranslationErrorView};
use crate::sync::translations::{
    pull_outcome, IntegrationRecords, IntegrationRecordsView, SyncTranslation,
};
use vstd::prelude::*;

verus! {

/// What one translator makes of a received record: its answer to the
/// operation that the record's action asks for.
pub open spec fn translator_pull<T: SyncTranslation>(
    translator: T,
    local: LocalDataView,
    row: SyncBufferRowView,
) -> Result<Option<IntegrationRecordsView>, TranslationErrorView> {
    match row.action {
        SyncBufferAction::Upsert => translator.pull_upsert(local, row),
        SyncBufferAction::Delete => translator.pull_delete(local, row),
    }
}

/// The error of a translator, with the record that it failed on.
pub open spec fn pull_error(row: SyncBufferRowView, source: TranslationErrorView) -> SyncTranslationErrorView {
    SyncTranslationErrorView { table_name: row.table_name, record_id: row.record_id, source }
}

/// What the translators at and after `from` make of a received record: the
/// result of the first that gives one, the error of a translator that fails
/// before any has given one, and `None` where none claims the record.
pub open spec fn pull_from<T: SyncTranslation>(
    translators: Seq<T>,
    local: LocalDataView,
    row: SyncBufferRowView,
    from: int,
) -> Result<Option<IntegrationRecordsView>, SyncTranslationErrorView>
    decreases translators.len() - from,
{
    if from < 0 || from >= translators.len() {
        Ok(None)
    } else {
        match translator_pull(translators[from], local, row) {
            Err(e) => Err(pull_error(row, e)),
            Ok(Some(records)) => Ok(Some(records)),
            Ok(None) => pull_from(translators, local, row, from + 1),
        }
    }
}

/// The outcome of the translation of a received record, as a value of
/// specifications.
pub open spec fn translation_outcome(
    r: Result<Option<IntegrationRecords>, SyncTranslationError>,
) -> Result<Option<IntegrationRecordsView>, SyncTranslationErrorView> {
    match r {
        Ok(Some(records)) => Ok(Some(records@)),
        Ok(None) => Ok(None),
        Err(e) => Err(e@),
    }
}

/// Translates one received record: asks the translators in their order and
/// takes the result of the first that gives one. The translators after it
/// are not asked.
///
/// `Ok(None)` says that no translator claims the record, which is no error.
pub fn translate_pull_record<T: SyncTranslation>(
    translators: &Vec<T>,
    local: &LocalData,
    row: &SyncBufferRow,
) -> (r: Result<Option<IntegrationRecords>, SyncTranslationError>)
    ensures
        translation_outcome(r) == pull_from(translators@, local@, row@, 0),
{
    let mut i: usize = 0;
    while i < translators.len()
        invariant
            i <= translators.len(),
            pull_from(translators@, local@, row@, 0) == pull_from(
                translators@,
                local@,
                row@,
                i as int,
            ),
        decreases translators.len() - i,
    {
        let answer = match row.action {
            SyncBufferAction::Upsert => translators[i].try_translate_pull_upsert(local, row),
            SyncBufferAction::Delete => translators[i].try_translate_pull_delete(local, row),
        };
        assert(pull_outcome(answer) == translator_pull(translators@[i as int], local@, row@));
        match answer {
            Err(e) => {
                return Err(
                    SyncTranslationError {
                        table_name: row.table_name.clone(),
                        record_id: row.record_id.clone(),
                        source: e,
                    },
                );
            },
            Ok(Some(records)) => {
                return Ok(Some(records));
            },
            Ok(None) => {},
        }
        i += 1;
    }
    Ok(None)
}

/// Whether every translator before `index` leaves the record to the next.
pub open spec fn all_pass_before<T: SyncTranslation>(
    translators: Seq<T>,
    local: LocalDataView,
    row: SyncBufferRowView,
    index: int,
) -> bool {
    forall|k: int|
        0 <= k < index ==> #[trigger] translator_pull(translators[k], local, row) == Ok::<
            Option<IntegrationRecordsView>,
            TranslationErrorView,
        >(None)
}

/// Translators that pass do not count: where all before `index` leave the
/// record to the next, the outcome is that of the translators from `index`
/// on.
pub proof fn lemma_pull_skips_passing<T: SyncTranslation>(
    translators: Seq<T>,
    local: LocalDataView,
    row: SyncBufferRowView,
    index: int,
)
    requires
        0 <= index <= translators.len(),
        all_pass_before(translators, local, row, index),
    ensures
        pull_from(translators, local, row, 0) == pull_from(translators, local, row, index),
    decreases index,
{
    if index > 0 {
        lemma_pull_skips_passing(translators, local, row, index - 1);
        assert(translator_pull(translators[index - 1], local, row) == Ok::<
            Option<IntegrationRecordsView>,
            TranslationErrorView,
        >(None));
    }
}

/// Precedence: of two translators that both have a result for a record, the
/// earlier one wins. Where the translators before `generic` leave the record
/// to it and it gives a result, that result is the outcome, whatever a
/// translator at a later place `special` would have made of the record.
pub proof fn lemma_earlier_translator_wins<T: SyncTranslation>(
    translators: Seq<T>,
    local: LocalDataView,
    row: SyncBufferRowView,
    generic: int,
    special: int,
)
    requires
        0 <= generic < special < translators.len(),
        all_pass_before(translators, local, row, generic),
        translator_pull(translators[generic], local, row) matches Ok(Some(_)),
    ensures
        pull_from(translators, local, row, 0) == Ok::<
            Option<IntegrationRecordsView>,
            SyncTranslationErrorView,
        >(translator_pull(translators[generic], local, row)->Ok_0),
{
    lemma_pull_skips_passing(translators, local, row, generic);
}

/// Precedence, the other way round: a later translator applies only where
/// every translator before it yields nothing. Then its answer is the
/// outcome.
pub proof fn lemma_later_translator_applies<T: SyncTranslation>(
    translators: Seq<T>,
    local: LocalDataView,
    row: SyncBufferRowView,
    special: int,
)
    requires
        0 <= special < translators.len(),
        all_pass_before(translators, local, row, special),
    ensures
        pull_from(translators, local, row, 0) == match translator_pull(
            translators[special],
            local,
            row,
        ) {
            Err(e) => Err(pull_error(row, e)),
            Ok(Some(records)) => Ok(Some(records)),
            Ok(None) => pull_from(translators, local, row, special + 1),
        },
{
    lemma_pull_skips_passing(translators, local, row, special);
}

/// Every outcome stems from the first translator that does not pass: a
/// result is the result of a translator before which all others passed, and
/// so is an error; no result means that every translator passed.
pub proof fn lemma_pull_outcome_is_first_answer<T: SyncTranslation>(
    translators: Seq<T>,
    local: LocalDataView,
    row: SyncBufferRowView,
)
    ensures
        match pull_from(translators, local, row, 0) {
            Ok(None) => all_pass_before(translators, local, row, translators.len() as int),
            Ok(Some(records)) => exists|w: int|
                0 <= w < translators.len() && all_pass_before(translators, local, row, w)
                    && #[trigger] translator_pull(translators[w], local, row) == Ok::<
                    Option<IntegrationRecordsView>,
                    TranslationErrorView,
                >(Some(records)),
            Err(e) => exists|w: int|
                0 <= w < translators.len() && all_pass_before(translators, local, row, w)
                    && #[trigger] translator_pull(translators[w], local, row) == Err::<
                    Option<IntegrationRecordsView>,
                    TranslationErrorView,
                >(e.source) && e == pull_error(row, e.source),
        },
{
    lemma_first_answer_from(translators, local, row, 0);
}

proof fn lemma_first_answer_from<T: SyncTranslation>(
    translators: Seq<T>,
    local: LocalDataView,
    row: SyncBufferRowView,
    from: int,
)
    requires
        0 <= from <= translators.len(),
        all_pass_before(translators, local, row, from),
    ensures
        match pull_from(translators, local, row, from) {
            Ok(None) => all_pass_before(translators, local, row, translators.len() as int),
            Ok(Some(records)) => exists|w: int|
                0 <= w < translators.len() && all_pass_before(translators, local, row, w)
                    && #[trigger] translator_pull(translators[w], local, row) == Ok::<
                    Option<IntegrationRecordsView>,
                    TranslationErrorView,
                >(Some(records)),
            Err(e) => exists|w: int|
                0 <= w < translators.len() && all_pass_before(translators, local, row, w)
                    && #[trigger] translator_pull(translators[w], local, row) == Err::<
                    Option<IntegrationRecordsView>,
                    TranslationErrorView,
                >(e.source) && e == pull_error(row, e.source),
        },
    decreases translators.len() - from,
{
    if from < translators.len() {
        match translator_pull(translators[from], local, row) {
            Ok(None) => {
                lemma_first_answer_from(translators, local, row, from + 1);
            },
            _ => {},
        }
    }
}

/// A record that no translator claims is tolerated: the outcome is `None`
/// and no error.
pub proof fn lemma_unclaimed_record_is_no_error<T: SyncTranslation>(
    translators: Seq<T>,
    local: LocalDataView,
    row: SyncBufferRowView,
)
    requires
        all_pass_before(translators, local, row, translators.len() as int),
    ensures
        pull_from(translators, local, row, 0) == Ok::<
            Option<IntegrationRecordsView>,
            SyncTranslationErrorView,
        >(None),
{
    lemma_pull_skips_passing(translators, local, row, translators.len() as int);
}

} // verus!
