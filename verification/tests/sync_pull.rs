use sync_translation::repository::changelog::{ChangelogRow, ChangelogRowView};
use sync_translation::repository::local_data::{LocalData, LocalDataView};
use sync_translation::repository::mock::{
    mock_name_tag_1, mock_name_tag_2, mock_name_tag_3, mock_name_tags, mock_period_schedule_1,
    mock_period_schedule_2,
};
use sync_translation::repository::rows::{
    MasterListRow, ProgramRequisitionOrderTypeRow, ProgramRequisitionSettingsRow, ProgramRow,
};
use sync_translation::repository::sync_buffer::{
    SyncBufferAction, SyncBufferRow, SyncBufferRowView,
};
use sync_translation::sync::pull::translate_pull_record;
use sync_translation::sync::translations::master_list::MasterListTranslation;
use sync_translation::sync::translations::registry::{all_translators, Translator};
use sync_translation::sync::translations::{
    IntegrationRecords, LegacyTableName, PullAnswerView, PullDeleteRecord, PullDeleteRecordTable,
    PullUpsertRecord, PushAnswerView, PushUpsertRecord, SyncTranslation,
};
use sync_translation::sync::{SyncTranslationError, TranslationError};

fn local_data() -> LocalData {
    LocalData {
        name_tags: vec![mock_name_tag_1(), mock_name_tag_2(), mock_name_tag_3()],
        period_schedules: vec![mock_period_schedule_1(), mock_period_schedule_2()],
    }
}

fn upsert(table_name: &str, record_id: &str, data: &str) -> SyncBufferRow {
    SyncBufferRow {
        record_id: record_id.to_string(),
        table_name: table_name.to_string(),
        action: SyncBufferAction::Upsert,
        data: data.to_string(),
    }
}

fn delete(table_name: &str, record_id: &str) -> SyncBufferRow {
    SyncBufferRow {
        record_id: record_id.to_string(),
        table_name: table_name.to_string(),
        action: SyncBufferAction::Delete,
        data: String::new(),
    }
}

/// A translator that claims every record of one table with a fixed answer.
struct Fixed {
    table_name: &'static str,
    answer: Result<Option<IntegrationRecords>, TranslationError>,
}

impl SyncTranslation for Fixed {
    fn pull_upsert(
        &self,
        _: LocalDataView,
        _: SyncBufferRowView,
    ) -> PullAnswerView {
        unreachable!()
    }

    fn pull_delete(
        &self,
        _: LocalDataView,
        _: SyncBufferRowView,
    ) -> PullAnswerView {
        unreachable!()
    }

    fn push(
        &self,
        _: LocalDataView,
        _: ChangelogRowView,
    ) -> PushAnswerView {
        unreachable!()
    }

    fn try_translate_pull_upsert(
        &self,
        _: &LocalData,
        row: &SyncBufferRow,
    ) -> Result<Option<IntegrationRecords>, TranslationError> {
        if row.table_name == self.table_name {
            self.answer.clone()
        } else {
            Ok(None)
        }
    }

    fn try_translate_pull_delete(
        &self,
        _: &LocalData,
        _: &SyncBufferRow,
    ) -> Result<Option<IntegrationRecords>, TranslationError> {
        Ok(None)
    }

    fn try_translate_push(
        &self,
        _: &LocalData,
        _: &ChangelogRow,
    ) -> Result<Option<Vec<PushUpsertRecord>>, TranslationError> {
        Ok(None)
    }
}

fn list(id: &str) -> IntegrationRecords {
    IntegrationRecords::from_upsert(PullUpsertRecord::MasterList(MasterListRow {
        id: id.to_string(),
        name: String::new(),
        code: String::new(),
        description: String::new(),
    }))
}

#[test]
fn generic_translator_wins_over_special() {
    let translators = vec![
        Fixed { table_name: "unit", answer: Ok(Some(list("other table"))) },
        Fixed { table_name: "name", answer: Ok(Some(list("generic"))) },
        Fixed { table_name: "name", answer: Ok(Some(list("special"))) },
    ];
    let result = translate_pull_record(&translators, &local_data(), &upsert("name", "n1", "{}"));
    assert_eq!(result, Ok(Some(list("generic"))));
}

#[test]
fn special_translator_applies_when_generic_yields_nothing() {
    let translators = vec![
        Fixed { table_name: "name", answer: Ok(None) },
        Fixed { table_name: "name", answer: Ok(Some(list("special"))) },
    ];
    let result = translate_pull_record(&translators, &local_data(), &upsert("name", "n1", "{}"));
    assert_eq!(result, Ok(Some(list("special"))));
}

#[test]
fn empty_result_of_first_translator_wins() {
    let translators = vec![
        Fixed { table_name: "name", answer: Ok(Some(IntegrationRecords::new())) },
        Fixed { table_name: "name", answer: Ok(Some(list("special"))) },
    ];
    let result = translate_pull_record(&translators, &local_data(), &upsert("name", "n1", "{}"));
    assert_eq!(result, Ok(Some(IntegrationRecords::new())));
}

#[test]
fn error_of_first_claimant_names_the_record() {
    let translators = vec![
        Fixed {
            table_name: "name",
            answer: Err(TranslationError::InvalidJson("broken".to_string())),
        },
        Fixed { table_name: "name", answer: Ok(Some(list("special"))) },
    ];
    let result = translate_pull_record(&translators, &local_data(), &upsert("name", "n1", "{}"));
    assert_eq!(
        result,
        Err(SyncTranslationError {
            table_name: "name".to_string(),
            record_id: "n1".to_string(),
            source: TranslationError::InvalidJson("broken".to_string()),
        })
    );
}

#[test]
fn later_error_is_not_reached_after_a_result() {
    let translators = vec![
        Fixed { table_name: "name", answer: Ok(Some(list("generic"))) },
        Fixed {
            table_name: "name",
            answer: Err(TranslationError::InvalidJson("broken".to_string())),
        },
    ];
    let result = translate_pull_record(&translators, &local_data(), &upsert("name", "n1", "{}"));
    assert_eq!(result, Ok(Some(list("generic"))));
}

#[test]
fn unclaimed_record_is_tolerated() {
    let row = upsert("some_table_of_the_future", "x", "{\"ID\":\"x\"}");
    assert_eq!(translate_pull_record(&all_translators(), &local_data(), &row), Ok(None));
    let row = delete("some_table_of_the_future", "x");
    assert_eq!(translate_pull_record(&all_translators(), &local_data(), &row), Ok(None));
    let none: Vec<Translator> = vec![];
    let row = upsert(LegacyTableName::LIST_MASTER, "x", "not even json");
    assert_eq!(translate_pull_record(&none, &local_data(), &row), Ok(None));
}

#[test]
fn upsert_of_a_table_without_upsert_translation_is_unclaimed() {
    let row = upsert(LegacyTableName::UNIT, "unit_a", "{\"ID\":\"unit_a\"}");
    assert_eq!(translate_pull_record(&all_translators(), &local_data(), &row), Ok(None));
}

#[test]
fn deletes_are_claimed_by_table_name() {
    let cases = vec![
        (LegacyTableName::UNIT, PullDeleteRecordTable::Unit),
        (LegacyTableName::ITEM, PullDeleteRecordTable::Item),
        (LegacyTableName::STORE, PullDeleteRecordTable::Store),
        (LegacyTableName::LIST_MASTER, PullDeleteRecordTable::MasterList),
        (LegacyTableName::LIST_MASTER_LINE, PullDeleteRecordTable::MasterListLine),
        (LegacyTableName::LIST_MASTER_NAME_JOIN, PullDeleteRecordTable::MasterListNameJoin),
        (LegacyTableName::REPORT, PullDeleteRecordTable::Report),
        (LegacyTableName::NAME, PullDeleteRecordTable::Name),
        (LegacyTableName::NAME_STORE_JOIN, PullDeleteRecordTable::NameStoreJoin),
        (LegacyTableName::TRANSACT, PullDeleteRecordTable::Invoice),
        (LegacyTableName::TRANS_LINE, PullDeleteRecordTable::InvoiceLine),
        (LegacyTableName::REQUISITION, PullDeleteRecordTable::Requisition),
        (LegacyTableName::REQUISITION_LINE, PullDeleteRecordTable::RequisitionLine),
    ];
    for (table_name, table) in cases {
        let result =
            translate_pull_record(&all_translators(), &local_data(), &delete(table_name, "id_1"));
        assert_eq!(
            result,
            Ok(Some(IntegrationRecords {
                upserts: vec![],
                deletes: vec![PullDeleteRecord { id: "id_1".to_string(), table }],
            }))
        );
    }
    for table_name in [
        LegacyTableName::NUMBER,
        LegacyTableName::LOCATION,
        LegacyTableName::ITEM_LINE,
        LegacyTableName::STOCKTAKE,
        LegacyTableName::STOCKTAKE_LINE,
        LegacyTableName::OM_ACTIVITY_LOG,
    ] {
        let result =
            translate_pull_record(&all_translators(), &local_data(), &delete(table_name, "id_1"));
        assert_eq!(result, Ok(None));
    }
}

#[test]
fn registry_is_fixed_and_specials_stand_last() {
    let first = all_translators();
    let second = all_translators();
    assert_eq!(first, second);
    assert_eq!(first.len(), 20);
    assert_eq!(first[0], Translator::Name);
    assert_eq!(first[4], Translator::MasterList);
    assert_eq!(first[18], Translator::NameStoreJoin);
    assert_eq!(first[19], Translator::NameToNameStoreJoin);
    let first_special = first.iter().position(|t| t.is_special()).unwrap();
    assert!(first[first_special..].iter().all(|t| t.is_special()));
    assert!(first[..first_special].iter().all(|t| !t.is_special()));
    assert_eq!(Translator::NameToNameStoreJoin.legacy_table_name(), "name");
    assert_eq!(Translator::Invoice.legacy_table_name(), "transact");
    assert_eq!(Translator::Invoice.delete_table(), Some(PullDeleteRecordTable::Invoice));
    assert_eq!(Translator::NameToNameStoreJoin.delete_table(), None);
    assert_eq!(Translator::Stocktake.delete_table(), None);
}

#[test]
fn mock_rows() {
    assert_eq!(mock_name_tag_1().id, "name_tag_1");
    assert_eq!(mock_name_tag_1().name, "NewProgramTag1");
    assert_eq!(mock_name_tags(), vec![mock_name_tag_1()]);
    assert_eq!(mock_period_schedule_1().name, "Monthly");
    assert_eq!(mock_period_schedule_2().name, "Weekly");
}

const MASTER_LIST_WITH_PROGRAM_1: (&'static str, &'static str) = (
    "program_test",
    r#"{
    "ID": "program_test",
    "description": "Program Test 01",
    "date_created": "2017-08-17",
    "created_by_user_ID": "0763E2E3053D4C478E1E6B6B03FEC207",
    "note": "note 3",
    "gets_new_items": false,
    "tags": null,
    "isProgram": true,
    "programSettings": {
        "elmisCode": "",
        "storeTags": {
            "NewProgramTag1": {
                "orderTypes": [
                    {
                        "isEmergency": false,
                        "maxEmergencyOrders": "",
                        "maxMOS": 3,
                        "maxOrdersPerPeriod": 1,
                        "name": "New order 1",
                        "thresholdMOS": 3,
                        "type": "Order type"
                    },
                    {
                        "isEmergency": false,
                        "maxEmergencyOrders": "",
                        "maxMOS": 3,
                        "maxOrdersPerPeriod": 1,
                        "name": "New order 2",
                        "thresholdMOS": 3,
                        "type": "Order type"
                    }
                ],
                "periodScheduleName": "Monthly"
            },
            "NewProgramTag2": {
                "orderTypes": [
                    {
                        "isEmergency": false,
                        "maxEmergencyOrders": "",
                        "maxMOS": 4,
                        "maxOrdersPerPeriod": 1,
                        "name": "New order 1",
                        "thresholdMOS": 4,
                        "type": "Order type"
                    }
                ],
                "periodScheduleName": "Monthly"
            },
            "NewProgramTag3": {
                "orderTypes": [
                    {
                        "isEmergency": false,
                        "maxEmergencyOrders": "",
                        "maxMOS": 2,
                        "maxOrdersPerPeriod": 3,
                        "name": "New order 1",
                        "thresholdMOS": 2,
                        "type": "Order type"
                    }
                ],
                "periodScheduleName": "Weekly"
            }
        }
    },
    "code": "",
    "isPatientList": false,
    "is_hiv": false,
    "isSupplierHubCatalog": false
}"#,
);

const MASTER_LIST_WITH_PROGRAM_2: (&'static str, &'static str) = (
    "program_test_2",
    r#"{
    "ID": "program_test_2",
    "description": "Program Test 02",
    "date_created": "2017-08-17",
    "created_by_user_ID": "0763E2E3053D4C478E1E6B6B03FEC207",
    "note": "note 4",
    "gets_new_items": false,
    "tags": null,
    "isProgram": true,
    "programSettings": {
        "elmisCode": "",
        "storeTags": {
            "NewProgramTag1": {
                "orderTypes": [],
                "periodScheduleName": "Monthly"
            }
        }
    },
    "code": "",
    "isPatientList": false,
    "is_hiv": false,
    "isSupplierHubCatalog": false
}"#,
);

const MASTER_LIST_1: (&'static str, &'static str) = (
    "87027C44835B48E6989376F42A58F7E3",
    r#"{
    "ID": "87027C44835B48E6989376F42A58F7E3",
    "description": "District Store",
    "note": "note 1",
    "isProgram": false,
    "programSettings": null,
    "code": "DS"
}"#,
);

struct TestSyncPullRecord {
    sync_buffer_row: SyncBufferRow,
    translated_record: Option<IntegrationRecords>,
}

impl TestSyncPullRecord {
    fn new_pull_upserts(
        table_name: &str,
        id_and_data: (&str, &str),
        upserts: Vec<PullUpsertRecord>,
    ) -> TestSyncPullRecord {
        TestSyncPullRecord {
            sync_buffer_row: upsert(table_name, id_and_data.0, id_and_data.1),
            translated_record: Some(IntegrationRecords::from_upserts(upserts)),
        }
    }

    fn new_pull_delete(
        table_name: &str,
        id: &str,
        table: PullDeleteRecordTable,
    ) -> TestSyncPullRecord {
        TestSyncPullRecord {
            sync_buffer_row: delete(table_name, id),
            translated_record: Some(IntegrationRecords::from_delete(id, table)),
        }
    }
}

fn order_type(
    program: &str,
    name_tag_id: &str,
    name: &str,
    months: i32,
    max_order_per_period: i32,
) -> PullUpsertRecord {
    PullUpsertRecord::ProgramRequisitionOrderType(ProgramRequisitionOrderTypeRow {
        id: program.to_owned() + name_tag_id + name,
        program_requisition_settings_id: program.to_owned() + name_tag_id,
        name: name.to_owned(),
        threshold_mos: months,
        max_mos: months,
        max_order_per_period,
    })
}

fn test_pull_upsert_records() -> Vec<TestSyncPullRecord> {
    vec![
        TestSyncPullRecord::new_pull_upserts(
            LegacyTableName::LIST_MASTER,
            MASTER_LIST_WITH_PROGRAM_1,
            vec![
                PullUpsertRecord::MasterList(MasterListRow {
                    id: MASTER_LIST_WITH_PROGRAM_1.0.to_owned(),
                    name: "Program Test 01".to_owned(),
                    code: "".to_owned(),
                    description: "note 3".to_owned(),
                }),
                PullUpsertRecord::Program(ProgramRow {
                    id: MASTER_LIST_WITH_PROGRAM_1.0.to_owned(),
                    name: "Program Test 01".to_owned(),
                    master_list_id: MASTER_LIST_WITH_PROGRAM_1.0.to_owned(),
                }),
                PullUpsertRecord::ProgramRequisitionSettings(ProgramRequisitionSettingsRow {
                    id: MASTER_LIST_WITH_PROGRAM_1.0.to_owned() + &mock_name_tag_1().id,
                    name_tag_id: mock_name_tag_1().id,
                    program_id: MASTER_LIST_WITH_PROGRAM_1.0.to_owned(),
                    period_schedule_id: mock_period_schedule_1().id,
                }),
                order_type(MASTER_LIST_WITH_PROGRAM_1.0, &mock_name_tag_1().id, "New order 1", 3, 1),
                order_type(MASTER_LIST_WITH_PROGRAM_1.0, &mock_name_tag_1().id, "New order 2", 3, 1),
                PullUpsertRecord::ProgramRequisitionSettings(ProgramRequisitionSettingsRow {
                    id: MASTER_LIST_WITH_PROGRAM_1.0.to_owned() + &mock_name_tag_2().id,
                    name_tag_id: mock_name_tag_2().id,
                    program_id: MASTER_LIST_WITH_PROGRAM_1.0.to_owned(),
                    period_schedule_id: mock_period_schedule_1().id,
                }),
                order_type(MASTER_LIST_WITH_PROGRAM_1.0, &mock_name_tag_2().id, "New order 1", 4, 1),
                PullUpsertRecord::ProgramRequisitionSettings(ProgramRequisitionSettingsRow {
                    id: MASTER_LIST_WITH_PROGRAM_1.0.to_owned() + &mock_name_tag_3().id,
                    name_tag_id: mock_name_tag_3().id,
                    program_id: MASTER_LIST_WITH_PROGRAM_1.0.to_owned(),
                    period_schedule_id: mock_period_schedule_2().id,
                }),
                order_type(MASTER_LIST_WITH_PROGRAM_1.0, &mock_name_tag_3().id, "New order 1", 2, 3),
            ],
        ),
        TestSyncPullRecord::new_pull_upserts(
            LegacyTableName::LIST_MASTER,
            MASTER_LIST_WITH_PROGRAM_2,
            vec![
                PullUpsertRecord::MasterList(MasterListRow {
                    id: MASTER_LIST_WITH_PROGRAM_2.0.to_owned(),
                    name: "Program Test 02".to_owned(),
                    code: "".to_owned(),
                    description: "note 4".to_owned(),
                }),
                PullUpsertRecord::Program(ProgramRow {
                    id: MASTER_LIST_WITH_PROGRAM_2.0.to_owned(),
                    name: "Program Test 02".to_owned(),
                    master_list_id: MASTER_LIST_WITH_PROGRAM_2.0.to_owned(),
                }),
                PullUpsertRecord::ProgramRequisitionSettings(ProgramRequisitionSettingsRow {
                    id: MASTER_LIST_WITH_PROGRAM_2.0.to_owned() + &mock_name_tag_1().id,
                    name_tag_id: mock_name_tag_1().id,
                    program_id: MASTER_LIST_WITH_PROGRAM_2.0.to_owned(),
                    period_schedule_id: mock_period_schedule_1().id,
                }),
            ],
        ),
        TestSyncPullRecord::new_pull_upserts(
            LegacyTableName::LIST_MASTER,
            MASTER_LIST_1,
            vec![PullUpsertRecord::MasterList(MasterListRow {
                id: MASTER_LIST_1.0.to_owned(),
                name: "District Store".to_owned(),
                code: "DS".to_owned(),
                description: "note 1".to_owned(),
            })],
        ),
    ]
}

fn test_pull_delete_records() -> Vec<TestSyncPullRecord> {
    vec![TestSyncPullRecord::new_pull_delete(
        LegacyTableName::LIST_MASTER,
        MASTER_LIST_1.0,
        PullDeleteRecordTable::MasterList,
    )]
}

#[test]
fn test_master_list_translation() {
    let translator = MasterListTranslation {};
    let connection = local_data();

    for record in test_pull_upsert_records() {
        let translation_result = translator
            .try_translate_pull_upsert(&connection, &record.sync_buffer_row)
            .unwrap();

        assert_eq!(translation_result, record.translated_record);
    }

    for record in test_pull_delete_records() {
        let translation_result = translator
            .try_translate_pull_delete(&connection, &record.sync_buffer_row)
            .unwrap();

        assert_eq!(translation_result, record.translated_record);
    }
}

#[test]
fn master_list_translator_leaves_other_tables_alone() {
    let translator = MasterListTranslation {};
    let row = upsert(LegacyTableName::LIST_MASTER_LINE, "x", MASTER_LIST_1.1);
    assert_eq!(translator.try_translate_pull_upsert(&local_data(), &row), Ok(None));
    let row = delete(LegacyTableName::LIST_MASTER_LINE, "x");
    assert_eq!(translator.try_translate_pull_delete(&local_data(), &row), Ok(None));
}
