use sync_translation::repository::changelog::{
    ChangelogAction, ChangelogRow, ChangelogRowView, ChangelogTableName,
};
use sync_translation::repository::local_data::{LocalData, LocalDataView};
use sync_translation::repository::sync_buffer::{SyncBufferRow, SyncBufferRowView};
use sync_translation::sync::push::{translate_changelog, translate_changelogs};
use sync_translation::sync::translations::registry::all_translators;
use sync_translation::sync::translations::{
    table_name_to_central, IntegrationRecords, PullAnswerView, PushAnswerView, PushRecord,
    PushUpsertRecord, SyncTranslation,
};
use sync_translation::sync::{SyncTranslationError, TranslationError};

fn changelog(
    cursor: i64,
    table_name: ChangelogTableName,
    record_id: &str,
    row_action: ChangelogAction,
) -> ChangelogRow {
    ChangelogRow { cursor, table_name, record_id: record_id.to_string(), row_action }
}

/// What a push translator of the tests does with the upserts of its table.
enum Behaviour {
    /// One record for each of the names, all under a cursor that is not the
    /// change's own.
    Records(Vec<&'static str>),
    Nothing,
    Fails,
}

struct PushOnly {
    table_name: ChangelogTableName,
    legacy_table_name: &'static str,
    behaviour: Behaviour,
}

impl SyncTranslation for PushOnly {
    fn pull_upsert(&self, _: LocalDataView, _: SyncBufferRowView) -> PullAnswerView {
        unreachable!()
    }

    fn pull_delete(&self, _: LocalDataView, _: SyncBufferRowView) -> PullAnswerView {
        unreachable!()
    }

    fn push(&self, _: LocalDataView, _: ChangelogRowView) -> PushAnswerView {
        unreachable!()
    }

    fn try_translate_pull_upsert(
        &self,
        _: &LocalData,
        _: &SyncBufferRow,
    ) -> Result<Option<IntegrationRecords>, TranslationError> {
        Ok(None)
    }

    fn try_translate_pull_delete(
        &self,
        _: &LocalData,
        _: &SyncBufferRow,
    ) -> Result<Option<IntegrationRecords>, TranslationError> {
        Ok(None)
    }

    fn try_translate_push(
        &self,
        _: &LocalData,
        changelog: &ChangelogRow,
    ) -> Result<Option<Vec<PushUpsertRecord>>, TranslationError> {
        if changelog.table_name != self.table_name {
            return Ok(None);
        }
        match &self.behaviour {
            Behaviour::Nothing => Ok(Some(vec![])),
            Behaviour::Fails => Err(TranslationError::InvalidJson("no row".to_string())),
            Behaviour::Records(names) => Ok(Some(
                names
                    .iter()
                    .map(|name| PushUpsertRecord {
                        sync_id: -1,
                        table_name: self.legacy_table_name,
                        record_id: changelog.record_id.clone(),
                        data: serde_json::Value::String(name.to_string()),
                    })
                    .collect(),
            )),
        }
    }
}

fn local() -> LocalData {
    LocalData::new()
}

/// The records as tuples: cursor, kind, table, id, data.
fn summary(records: &Vec<PushRecord>) -> Vec<(i64, &'static str, String, String, String)> {
    records
        .iter()
        .map(|record| match record {
            PushRecord::Upsert(r) => {
                (r.sync_id, "upsert", r.table_name.to_string(), r.record_id.clone(), r.data.to_string())
            }
            PushRecord::Delete(r) => {
                (r.sync_id, "delete", r.table_name.to_string(), r.record_id.clone(), String::new())
            }
        })
        .collect()
}

fn row(cursor: i64, kind: &'static str, table: &str, id: &str, data: &str) -> (i64, &'static str, String, String, String) {
    (cursor, kind, table.to_string(), id.to_string(), data.to_string())
}

#[test]
fn maps_every_table_to_its_central_name() {
    let expected = vec![
        (ChangelogTableName::Number, "number"),
        (ChangelogTableName::Location, "Location"),
        (ChangelogTableName::StockLine, "item_line"),
        (ChangelogTableName::Name, "name"),
        (ChangelogTableName::NameStoreJoin, "name_store_join"),
        (ChangelogTableName::Invoice, "transact"),
        (ChangelogTableName::InvoiceLine, "trans_line"),
        (ChangelogTableName::Stocktake, "Stock_take"),
        (ChangelogTableName::StocktakeLine, "Stock_take_lines"),
        (ChangelogTableName::Requisition, "requisition"),
        (ChangelogTableName::RequisitionLine, "requisition_line"),
        (ChangelogTableName::ActivityLog, "activity_log"),
    ];
    for (table, name) in expected {
        assert_eq!(table_name_to_central(&table), name);
    }
}

#[test]
fn delete_short_circuit() {
    let entry = changelog(12, ChangelogTableName::Invoice, "invoice_a", ChangelogAction::Delete);
    let expected = vec![row(12, "delete", "transact", "invoice_a", "")];

    let mut results = Vec::new();
    assert_eq!(translate_changelog(&all_translators(), &local(), &entry, &mut results), Ok(()));
    assert_eq!(summary(&results), expected);

    let none: Vec<PushOnly> = vec![];
    let mut results = Vec::new();
    assert_eq!(translate_changelog(&none, &local(), &entry, &mut results), Ok(()));
    assert_eq!(summary(&results), expected);

    let many = vec![
        PushOnly {
            table_name: ChangelogTableName::Invoice,
            legacy_table_name: "transact",
            behaviour: Behaviour::Records(vec!["a", "b"]),
        },
        PushOnly {
            table_name: ChangelogTableName::Invoice,
            legacy_table_name: "transact",
            behaviour: Behaviour::Fails,
        },
    ];
    let mut results = Vec::new();
    assert_eq!(translate_changelog(&many, &local(), &entry, &mut results), Ok(()));
    assert_eq!(summary(&results), expected);
}

#[test]
fn upsert_takes_first_translator_with_records() {
    let translators = vec![
        PushOnly {
            table_name: ChangelogTableName::Name,
            legacy_table_name: "name",
            behaviour: Behaviour::Records(vec!["not asked for invoices"]),
        },
        PushOnly {
            table_name: ChangelogTableName::Invoice,
            legacy_table_name: "transact",
            behaviour: Behaviour::Nothing,
        },
        PushOnly {
            table_name: ChangelogTableName::Invoice,
            legacy_table_name: "transact",
            behaviour: Behaviour::Records(vec!["first", "second"]),
        },
        PushOnly {
            table_name: ChangelogTableName::Invoice,
            legacy_table_name: "transact",
            behaviour: Behaviour::Records(vec!["never reached"]),
        },
    ];
    let entry = changelog(40, ChangelogTableName::Invoice, "invoice_a", ChangelogAction::Upsert);
    let mut results =
        vec![PushRecord::Delete(sync_translation::sync::translations::PushDeleteRecord {
            sync_id: 39,
            table_name: "name",
            record_id: "kept".to_string(),
        })];
    assert_eq!(translate_changelog(&translators, &local(), &entry, &mut results), Ok(()));
    assert_eq!(
        summary(&results),
        vec![
            row(39, "delete", "name", "kept", ""),
            row(40, "upsert", "transact", "invoice_a", "\"first\""),
            row(40, "upsert", "transact", "invoice_a", "\"second\""),
        ]
    );
}

#[test]
fn unclaimed_upsert_is_skipped() {
    let entry = changelog(5, ChangelogTableName::Stocktake, "s", ChangelogAction::Upsert);
    let mut results = Vec::new();
    assert_eq!(translate_changelog(&all_translators(), &local(), &entry, &mut results), Ok(()));
    assert!(results.is_empty());
}

#[test]
fn failing_translator_names_table_and_record() {
    let translators = vec![PushOnly {
        table_name: ChangelogTableName::InvoiceLine,
        legacy_table_name: "trans_line",
        behaviour: Behaviour::Fails,
    }];
    let entry = changelog(5, ChangelogTableName::InvoiceLine, "line_a", ChangelogAction::Upsert);
    let mut results = Vec::new();
    assert_eq!(
        translate_changelog(&translators, &local(), &entry, &mut results),
        Err(SyncTranslationError {
            table_name: "trans_line".to_string(),
            record_id: "line_a".to_string(),
            source: TranslationError::InvalidJson("no row".to_string()),
        })
    );
    assert!(results.is_empty());
}

#[test]
fn batch_keeps_order_and_ends_on_last_cursor() {
    let translators = vec![PushOnly {
        table_name: ChangelogTableName::Invoice,
        legacy_table_name: "transact",
        behaviour: Behaviour::Records(vec!["x", "y"]),
    }];
    let entries = vec![
        changelog(3, ChangelogTableName::Invoice, "a", ChangelogAction::Upsert),
        changelog(5, ChangelogTableName::Name, "b", ChangelogAction::Delete),
        changelog(5, ChangelogTableName::Stocktake, "c", ChangelogAction::Upsert),
        changelog(9, ChangelogTableName::Invoice, "d", ChangelogAction::Delete),
    ];
    let batch = translate_changelogs(&translators, &local(), &entries, 2).unwrap();
    assert_eq!(batch.cursor, 9);
    assert_eq!(
        summary(&batch.records),
        vec![
            row(3, "upsert", "transact", "a", "\"x\""),
            row(3, "upsert", "transact", "a", "\"y\""),
            row(5, "delete", "name", "b", ""),
            row(9, "delete", "transact", "d", ""),
        ]
    );
    let cursors: Vec<i64> = batch.records.iter().map(|r| r.cursor()).collect();
    assert_eq!(cursors, vec![3, 3, 5, 9]);
    assert_eq!(batch.skipped, vec![2]);
}

#[test]
fn batch_that_fails_late_hands_back_no_cursor() {
    let translators = vec![PushOnly {
        table_name: ChangelogTableName::Invoice,
        legacy_table_name: "transact",
        behaviour: Behaviour::Fails,
    }];
    let entries = vec![
        changelog(3, ChangelogTableName::Name, "a", ChangelogAction::Delete),
        changelog(5, ChangelogTableName::Name, "b", ChangelogAction::Delete),
        changelog(5, ChangelogTableName::Invoice, "c", ChangelogAction::Upsert),
        changelog(9, ChangelogTableName::Name, "d", ChangelogAction::Delete),
    ];
    let result = translate_changelogs(&translators, &local(), &entries, 2);
    match result {
        Ok(_) => panic!("the third change cannot be translated"),
        Err(error) => assert_eq!(
            error,
            SyncTranslationError {
                table_name: "transact".to_string(),
                record_id: "c".to_string(),
                source: TranslationError::InvalidJson("no row".to_string()),
            }
        ),
    }
}

#[test]
fn empty_batch_keeps_the_cursor() {
    let batch = translate_changelogs(&all_translators(), &local(), &vec![], 17).unwrap();
    assert_eq!(batch.cursor, 17);
    assert!(batch.records.is_empty());
    assert!(batch.skipped.is_empty());
}

#[test]
fn batch_names_the_changes_that_nobody_claims() {
    let translators = vec![PushOnly {
        table_name: ChangelogTableName::Invoice,
        legacy_table_name: "transact",
        behaviour: Behaviour::Nothing,
    }];
    let entries = vec![
        changelog(1, ChangelogTableName::Invoice, "a", ChangelogAction::Upsert),
        changelog(2, ChangelogTableName::Invoice, "b", ChangelogAction::Delete),
        changelog(3, ChangelogTableName::Name, "c", ChangelogAction::Upsert),
    ];
    let batch = translate_changelogs(&translators, &local(), &entries, 0).unwrap();
    assert_eq!(batch.skipped, vec![0, 2]);
    assert_eq!(batch.cursor, 3);
    assert_eq!(summary(&batch.records), vec![row(2, "delete", "transact", "b", "")]);
}
