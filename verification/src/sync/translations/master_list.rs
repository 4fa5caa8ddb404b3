//! The translator of the legacy table of master lists. A master list that is
//! a program carries its requisition settings with it.

use crate::json::{
    distinct_names, json_of_text, lemma_member_names_once, Json, JsonView, ShapeError,
    ShapeErrorView,
};
use crate::repository::changelog::{ChangelogRow, ChangelogRowView};
use crate::repository::local_data::{LocalData, LocalDataView};
use crate::repository::rows::{
    MasterListRow, MasterListRowView, ProgramRequisitionOrderTypeRow,
    ProgramRequisitionOrderTypeRowView, ProgramRequisitionSettingsRow,
    ProgramRequisitionSettingsRowView, ProgramRow, ProgramRowView,
};
use crate::repository::sync_buffer::{SyncBufferRow, SyncBufferRowView};
use crate::sync::{TranslationError, TranslationErrorView};
use crate::sync::translations::{
    pull_outcome, IntegrationRecords, IntegrationRecordsView, LegacyTableName, PullAnswerView,
    PullDeleteRecordTable, PullUpsertRecord, PullUpsertRecordView, PushAnswerView, PushUpsertRecord,
    SyncTranslation,
};
use crate::views::{lemma_views_push, views};
use vstd::prelude::*;

verus! {

/// A record of the legacy table `list_master`.
#[derive(Debug, Clone, PartialEq)]
pub struct LegacyListMasterRow {
    pub id: String,
    pub description: String,
    pub is_program: bool,
    pub code: String,
    pub note: String,
    pub program_settings: Option<LegacyProgramSettings>,
}

#[derive(Debug, Clone, PartialEq)]
pub struct LegacyProgramSettings {
    pub store_tags: LegacyStoreTagAndProgramName,
}

/// The settings of a program for each tag of stores, under the tag's name.
/// The names are in the order of the record, and a record that was read
/// from a parsed document has each name once.
#[derive(Debug, Clone, PartialEq)]
pub struct LegacyStoreTagAndProgramName {
    pub tags: Vec<(String, LegacyStoreTag)>,
}

#[derive(Debug, Clone, PartialEq)]
pub struct LegacyStoreTag {
    pub order_types: Vec<LegacyOrderType>,
    pub period_schedule_name: String,
}

#[derive(Debug, Clone, PartialEq)]
pub struct LegacyOrderType {
    pub name: String,
    pub threshold_mos: i32,
    pub max_mos: i32,
    pub max_order_per_period: i32,
}

pub struct LegacyListMasterRowView {
    pub id: Seq<char>,
    pub description: Seq<char>,
    pub is_program: bool,
    pub code: Seq<char>,
    pub note: Seq<char>,
    pub program_settings: Option<LegacyProgramSettingsView>,
}

pub struct LegacyProgramSettingsView {
    pub store_tags: Seq<(Seq<char>, LegacyStoreTagView)>,
}

pub struct LegacyStoreTagView {
    pub order_types: Seq<LegacyOrderTypeView>,
    pub period_schedule_name: Seq<char>,
}

pub struct LegacyOrderTypeView {
    pub name: Seq<char>,
    pub threshold_mos: i32,
    pub max_mos: i32,
    pub max_order_per_period: i32,
}

impl View for LegacyOrderType {
    type V = LegacyOrderTypeView;

    open spec fn view(&self) -> LegacyOrderTypeView {
        LegacyOrderTypeView {
            name: self.name@,
            threshold_mos: self.threshold_mos,
            max_mos: self.max_mos,
            max_order_per_period: self.max_order_per_period,
        }
    }
}

impl View for LegacyStoreTag {
    type V = LegacyStoreTagView;

    open spec fn view(&self) -> LegacyStoreTagView {
        LegacyStoreTagView {
            order_types: views(self.order_types@),
            period_schedule_name: self.period_schedule_name@,
        }
    }
}

impl View for LegacyProgramSettings {
    type V = LegacyProgramSettingsView;

    open spec fn view(&self) -> LegacyProgramSettingsView {
        LegacyProgramSettingsView { store_tags: views(self.store_tags.tags@) }
    }
}

impl View for LegacyListMasterRow {
    type V = LegacyListMasterRowView;

    open spec fn view(&self) -> LegacyListMasterRowView {
        LegacyListMasterRowView {
            id: self.id@,
            description: self.description@,
            is_program: self.is_program,
            code: self.code@,
            note: self.note@,
            program_settings: match self.program_settings {
                Some(settings) => Some(settings@),
                None => None,
            },
        }
    }
}

impl LegacyListMasterRowView {
    /// Whether the record names each tag of stores once.
    pub open spec fn well_formed(self) -> bool {
        self.program_settings matches Some(settings) ==> distinct_names(settings.store_tags)
    }
}

/// The order type that a member of `orderTypes` stands for.
pub open spec fn order_type_of(doc: JsonView) -> Result<LegacyOrderTypeView, ShapeErrorView> {
    match doc.text_field("name"@) {
        Err(e) => Err(e),
        Ok(name) => match doc.i32_field("thresholdMOS"@) {
            Err(e) => Err(e),
            Ok(threshold_mos) => match doc.i32_field("maxMOS"@) {
                Err(e) => Err(e),
                Ok(max_mos) => match doc.i32_field("maxOrdersPerPeriod"@) {
                    Err(e) => Err(e),
                    Ok(max_order_per_period) => Ok(
                        LegacyOrderTypeView { name, threshold_mos, max_mos, max_order_per_period },
                    ),
                },
            },
        },
    }
}

/// The order types that the first `n` items stand for, or the error of the
/// first item that stands for none.
pub open spec fn order_types_of(items: Seq<JsonView>, n: nat) -> Result<
    Seq<LegacyOrderTypeView>,
    ShapeErrorView,
>
    decreases n,
{
    if n == 0 || n > items.len() {
        Ok(Seq::empty())
    } else {
        match order_types_of(items, (n - 1) as nat) {
            Err(e) => Err(e),
            Ok(head) => match order_type_of(items[n - 1]) {
                Err(e) => Err(e),
                Ok(order_type) => Ok(head.push(order_type)),
            },
        }
    }
}

/// The settings that the value under a tag's name stands for.
pub open spec fn store_tag_of(doc: JsonView) -> Result<LegacyStoreTagView, ShapeErrorView> {
    match doc.member("orderTypes"@) {
        None => Err(ShapeErrorView::MissingField("orderTypes"@)),
        Some(JsonView::Array(items)) => match order_types_of(items, items.len()) {
            Err(e) => Err(e),
            Ok(order_types) => match doc.text_field("periodScheduleName"@) {
                Err(e) => Err(e),
                Ok(period_schedule_name) => Ok(
                    LegacyStoreTagView { order_types, period_schedule_name },
                ),
            },
        },
        Some(_) => Err(ShapeErrorView::InvalidType("orderTypes"@)),
    }
}

/// The settings that the first `n` members of `storeTags` stand for, each
/// under its name, or the error of the first member that stands for none.
pub open spec fn store_tags_of(members: Seq<(Seq<char>, JsonView)>, n: nat) -> Result<
    Seq<(Seq<char>, LegacyStoreTagView)>,
    ShapeErrorView,
>
    decreases n,
{
    if n == 0 || n > members.len() {
        Ok(Seq::empty())
    } else {
        match store_tags_of(members, (n - 1) as nat) {
            Err(e) => Err(e),
            Ok(head) => match store_tag_of(members[n - 1].1) {
                Err(e) => Err(e),
                Ok(tag) => Ok(head.push((members[n - 1].0, tag))),
            },
        }
    }
}

/// The program settings that the value of `programSettings` stands for.
pub open spec fn program_settings_of(doc: JsonView) -> Result<
    LegacyProgramSettingsView,
    ShapeErrorView,
> {
    match doc.member("storeTags"@) {
        None => Err(ShapeErrorView::MissingField("storeTags"@)),
        Some(JsonView::Object(members)) => match store_tags_of(members, members.len()) {
            Err(e) => Err(e),
            Ok(store_tags) => Ok(LegacyProgramSettingsView { store_tags }),
        },
        Some(_) => Err(ShapeErrorView::InvalidType("storeTags"@)),
    }
}

/// The program settings of a record: none where the record has no member
/// `programSettings` or holds `null` there.
pub open spec fn optional_program_settings_of(doc: JsonView) -> Result<
    Option<LegacyProgramSettingsView>,
    ShapeErrorView,
> {
    match doc.member("programSettings"@) {
        None => Ok(None),
        Some(JsonView::Null) => Ok(None),
        Some(settings) => match program_settings_of(settings) {
            Err(e) => Err(e),
            Ok(settings) => Ok(Some(settings)),
        },
    }
}

/// The legacy record that a document stands for. `ID` and `isProgram` must
/// be there; `description`, `code` and `note` are empty where they are not.
/// Members of other names are not looked at. The members are read in the
/// order in which this function names them, and the first that is not as it
/// must be gives the error.
pub open spec fn list_master_row_of(doc: JsonView) -> Result<
    LegacyListMasterRowView,
    ShapeErrorView,
> {
    match doc.text_field("ID"@) {
        Err(e) => Err(e),
        Ok(id) => match doc.text_field_or_empty("description"@) {
            Err(e) => Err(e),
            Ok(description) => match doc.bool_field("isProgram"@) {
                Err(e) => Err(e),
                Ok(is_program) => match doc.text_field_or_empty("code"@) {
                    Err(e) => Err(e),
                    Ok(code) => match doc.text_field_or_empty("note"@) {
                        Err(e) => Err(e),
                        Ok(note) => match optional_program_settings_of(doc) {
                            Err(e) => Err(e),
                            Ok(program_settings) => Ok(
                                LegacyListMasterRowView {
                                    id,
                                    description,
                                    is_program,
                                    code,
                                    note,
                                    program_settings,
                                },
                            ),
                        },
                    },
                },
            },
        }
    }
}

/// The outcome of reading a value that has a view, as a value of
/// specifications.
pub open spec fn shape_outcome<T: View>(r: Result<T, ShapeError>) -> Result<T::V, ShapeErrorView> {
    match r {
        Ok(value) => Ok(value@),
        Err(e) => Err(e@),
    }
}

impl LegacyOrderType {
    /// Reads an order type from a member of `orderTypes`.
    pub fn from_json(doc: &Json) -> (r: Result<LegacyOrderType, ShapeError>)
        ensures
            shape_outcome(r) == order_type_of(doc@),
    {
        let name = match doc.text_field("name") {
            Ok(name) => name,
            Err(e) => {
                return Err(e);
            },
        };
        let threshold_mos = match doc.i32_field("thresholdMOS") {
            Ok(n) => n,
            Err(e) => {
                return Err(e);
            },
        };
        let max_mos = match doc.i32_field("maxMOS") {
            Ok(n) => n,
            Err(e) => {
                return Err(e);
            },
        };
        let max_order_per_period = match doc.i32_field("maxOrdersPerPeriod") {
            Ok(n) => n,
            Err(e) => {
                return Err(e);
            },
        };
        Ok(LegacyOrderType { name, threshold_mos, max_mos, max_order_per_period })
    }
}

impl LegacyStoreTag {
    /// Reads the settings for one tag from the value under the tag's name.
    pub fn from_json(doc: &Json) -> (r: Result<LegacyStoreTag, ShapeError>)
        ensures
            shape_outcome(r) == store_tag_of(doc@),
    {
        let items = match doc.get("orderTypes") {
            None => {
                return Err(ShapeError::MissingField("orderTypes".to_owned()));
            },
            Some(value) => match value.as_array() {
                None => {
                    return Err(ShapeError::InvalidType("orderTypes".to_owned()));
                },
                Some(items) => items,
            },
        };
        let mut order_types: Vec<LegacyOrderType> = Vec::new();
        let mut i: usize = 0;
        assert(views(order_types@) =~= Seq::empty());
        while i < items.len()
            invariant
                i <= items.len(),
                doc@.member("orderTypes"@) == Some(JsonView::Array(views(items@))),
                order_types_of(views(items@), i as nat) == Ok::<
                    Seq<LegacyOrderTypeView>,
                    ShapeErrorView,
                >(views(order_types@)),
            decreases items.len() - i,
        {
            match LegacyOrderType::from_json(&items[i]) {
                Err(e) => {
                    proof {
                        assert(views(items@)[i as int] == items@[i as int]@);
                        assert(order_types_of(views(items@), (i + 1) as nat) == Err::<
                            Seq<LegacyOrderTypeView>,
                            ShapeErrorView,
                        >(e@));
                        lemma_order_types_error(views(items@), (i + 1) as nat, items@.len());
                    }
                    return Err(e);
                },
                Ok(order_type) => {
                    proof {
                        lemma_views_push(order_types@, order_type);
                    }
                    order_types.push(order_type);
                },
            }
            i += 1;
        }
        let period_schedule_name = match doc.text_field("periodScheduleName") {
            Ok(name) => name,
            Err(e) => {
                return Err(e);
            },
        };
        Ok(LegacyStoreTag { order_types, period_schedule_name })
    }
}

/// An error among the first `n` items is the error of every longer run of
/// items.
pub proof fn lemma_order_types_error(items: Seq<JsonView>, n: nat, m: nat)
    requires
        n <= m <= items.len(),
        order_types_of(items, n) is Err,
    ensures
        order_types_of(items, m) == order_types_of(items, n),
    decreases m,
{
    if n < m {
        lemma_order_types_error(items, n, (m - 1) as nat);
    }
}

/// An error among the first `n` members is the error of every longer run of
/// members.
pub proof fn lemma_store_tags_error(members: Seq<(Seq<char>, JsonView)>, n: nat, m: nat)
    requires
        n <= m <= members.len(),
        store_tags_of(members, n) is Err,
    ensures
        store_tags_of(members, m) == store_tags_of(members, n),
    decreases m,
{
    if n < m {
        lemma_store_tags_error(members, n, (m - 1) as nat);
    }
}

/// The settings that are read from the members of `storeTags` stand under
/// the names of the members, one for one.
pub proof fn lemma_store_tags_names(members: Seq<(Seq<char>, JsonView)>, n: nat)
    requires
        n <= members.len(),
        store_tags_of(members, n) is Ok,
    ensures
        store_tags_of(members, n)->Ok_0.len() == n,
        forall|i: int|
            0 <= i < n ==> (#[trigger] store_tags_of(members, n)->Ok_0[i]).0 == members[i].0,
    decreases n,
{
    if n > 0 {
        lemma_store_tags_names(members, (n - 1) as nat);
    }
}

/// A record that is read from a document in which every object has each of
/// its names once names each tag once.
pub proof fn lemma_list_master_row_well_formed(doc: JsonView)
    requires
        doc.names_once(),
        list_master_row_of(doc) is Ok,
    ensures
        list_master_row_of(doc)->Ok_0.well_formed(),
{
    let row = list_master_row_of(doc)->Ok_0;
    if row.program_settings is Some {
        let settings = doc.member("programSettings"@)->Some_0;
        lemma_member_names_once(doc, "programSettings"@);
        lemma_member_names_once(settings, "storeTags"@);
        let members = settings.member("storeTags"@)->Some_0->Object_0;
        lemma_store_tags_names(members, members.len());
        let tags = row.program_settings->Some_0.store_tags;
        assert(tags == store_tags_of(members, members.len())->Ok_0);
        assert forall|i: int, j: int| 0 <= i < j < tags.len() implies (#[trigger] tags[i]).0 != (
        #[trigger] tags[j]).0 by {
            assert(tags[i].0 == members[i].0);
            assert(tags[j].0 == members[j].0);
        }
    }
}

impl LegacyProgramSettings {
    /// Reads the program settings from the value of `programSettings`.
    pub fn from_json(doc: &Json) -> (r: Result<LegacyProgramSettings, ShapeError>)
        ensures
            shape_outcome(r) == program_settings_of(doc@),
    {
        let members = match doc.get("storeTags") {
            None => {
                return Err(ShapeError::MissingField("storeTags".to_owned()));
            },
            Some(value) => match value.as_object() {
                None => {
                    return Err(ShapeError::InvalidType("storeTags".to_owned()));
                },
                Some(members) => members,
            },
        };
        let mut tags: Vec<(String, LegacyStoreTag)> = Vec::new();
        let mut i: usize = 0;
        assert(views(tags@) =~= Seq::empty());
        while i < members.len()
            invariant
                i <= members.len(),
                doc@.member("storeTags"@) == Some(JsonView::Object(views(members@))),
                store_tags_of(views(members@), i as nat) == Ok::<
                    Seq<(Seq<char>, LegacyStoreTagView)>,
                    ShapeErrorView,
                >(views(tags@)),
            decreases members.len() - i,
        {
            match LegacyStoreTag::from_json(&members[i].1) {
                Err(e) => {
                    proof {
                        assert(views(members@)[i as int] == members@[i as int]@);
                        assert(store_tags_of(views(members@), (i + 1) as nat) == Err::<
                            Seq<(Seq<char>, LegacyStoreTagView)>,
                            ShapeErrorView,
                        >(e@));
                        lemma_store_tags_error(views(members@), (i + 1) as nat, members@.len());
                    }
                    return Err(e);
                },
                Ok(tag) => {
                    let entry = (members[i].0.clone(), tag);
                    proof {
                        lemma_views_push(tags@, entry);
                    }
                    tags.push(entry);
                },
            }
            i += 1;
        }
        Ok(LegacyProgramSettings { store_tags: LegacyStoreTagAndProgramName { tags } })
    }
}

impl LegacyListMasterRow {
    /// Reads a legacy record from the document that is the body of a
    /// received record. The record names each tag once where the document
    /// has each name of an object once, as a parsed document has.
    pub fn from_json(doc: &Json) -> (r: Result<LegacyListMasterRow, ShapeError>)
        ensures
            shape_outcome(r) == list_master_row_of(doc@),
            doc@.names_once() ==> (r matches Ok(row) ==> row@.well_formed()),
    {
        proof {
            if doc@.names_once() && list_master_row_of(doc@) is Ok {
                lemma_list_master_row_well_formed(doc@);
            }
        }
        let id = match doc.text_field("ID") {
            Ok(text) => text,
            Err(e) => {
                return Err(e);
            },
        };
        let description = match doc.text_field_or_empty("description") {
            Ok(text) => text,
            Err(e) => {
                return Err(e);
            },
        };
        let is_program = match doc.bool_field("isProgram") {
            Ok(b) => b,
            Err(e) => {
                return Err(e);
            },
        };
        let code = match doc.text_field_or_empty("code") {
            Ok(text) => text,
            Err(e) => {
                return Err(e);
            },
        };
        let note = match doc.text_field_or_empty("note") {
            Ok(text) => text,
            Err(e) => {
                return Err(e);
            },
        };
        let program_settings = match doc.get("programSettings") {
            None => None,
            Some(Json::Null) => None,
            Some(value) => match LegacyProgramSettings::from_json(value) {
                Ok(settings) => Some(settings),
                Err(e) => {
                    return Err(e);
                },
            },
        };
        Ok(LegacyListMasterRow { id, description, is_program, code, note, program_settings })
    }
}

/// The master list row of a legacy record.
pub open spec fn master_list_row(data: LegacyListMasterRowView) -> MasterListRowView {
    MasterListRowView {
        id: data.id,
        name: data.description,
        code: data.code,
        description: data.note,
    }
}

/// The program row of a legacy record that is a program. It has the id of
/// the master list.
pub open spec fn program_row(data: LegacyListMasterRowView) -> ProgramRowView {
    ProgramRowView { id: data.id, name: data.description, master_list_id: data.id }
}

/// The settings row of a program for one name tag. Its id is the id of the
/// program followed by the id of the tag, so that the same legacy record
/// always gives the same row.
pub open spec fn settings_row(
    program_id: Seq<char>,
    name_tag_id: Seq<char>,
    period_schedule_id: Seq<char>,
) -> ProgramRequisitionSettingsRowView {
    ProgramRequisitionSettingsRowView {
        id: program_id + name_tag_id,
        name_tag_id,
        program_id,
        period_schedule_id,
    }
}

/// The row of one order type of a settings row. Its id is the id of the
/// settings row followed by the name of the order type.
pub open spec fn order_type_row(
    settings_id: Seq<char>,
    order_type: LegacyOrderTypeView,
) -> ProgramRequisitionOrderTypeRowView {
    ProgramRequisitionOrderTypeRowView {
        id: settings_id + order_type.name,
        program_requisition_settings_id: settings_id,
        name: order_type.name,
        threshold_mos: order_type.threshold_mos,
        max_mos: order_type.max_mos,
        max_order_per_period: order_type.max_order_per_period,
    }
}

/// The rows of the order types of a settings row, in their order.
pub open spec fn order_type_rows(
    settings_id: Seq<char>,
    order_types: Seq<LegacyOrderTypeView>,
) -> Seq<PullUpsertRecordView> {
    Seq::new(
        order_types.len(),
        |i: int|
            PullUpsertRecordView::ProgramRequisitionOrderType(
                order_type_row(settings_id, order_types[i]),
            ),
    )
}

/// The ids of the name tag called `tag_name` and of the period schedule that
/// the tag's settings name, looked up in the local rows; the error names
/// which of the two is not there.
pub open spec fn name_tag_and_period_schedule_id(
    local: LocalDataView,
    tag_name: Seq<char>,
    store_tag: LegacyStoreTagView,
    id: Seq<char>,
) -> Result<(Seq<char>, Seq<char>), TranslationErrorView> {
    match local.name_tag_by_name(tag_name) {
        None => Err(TranslationErrorView::NameTagNotFound { program_id: id }),
        Some(name_tag) => match local.period_schedule_by_name(store_tag.period_schedule_name) {
            None => Err(TranslationErrorView::PeriodScheduleNotFound { program_id: id }),
            Some(period_schedule) => Ok((name_tag.id, period_schedule.id)),
        },
    }
}

/// The rows of a program for one tag: the settings row, then the rows of
/// its order types.
pub open spec fn tag_rows(
    local: LocalDataView,
    program_id: Seq<char>,
    tag_name: Seq<char>,
    store_tag: LegacyStoreTagView,
) -> Result<Seq<PullUpsertRecordView>, TranslationErrorView> {
    match name_tag_and_period_schedule_id(local, tag_name, store_tag, program_id) {
        Err(e) => Err(e),
        Ok((name_tag_id, period_schedule_id)) => {
            let settings = settings_row(program_id, name_tag_id, period_schedule_id);
            Ok(
                seq![PullUpsertRecordView::ProgramRequisitionSettings(settings)] + order_type_rows(
                    settings.id,
                    store_tag.order_types,
                ),
            )
        },
    }
}

/// The rows of a program for its first `n` tags, in the order of the tags,
/// or the error of the first tag whose references cannot be resolved.
pub open spec fn program_rows(
    local: LocalDataView,
    program_id: Seq<char>,
    tags: Seq<(Seq<char>, LegacyStoreTagView)>,
    n: nat,
) -> Result<Seq<PullUpsertRecordView>, TranslationErrorView>
    decreases n,
{
    if n == 0 || n > tags.len() {
        Ok(Seq::empty())
    } else {
        match program_rows(local, program_id, tags, (n - 1) as nat) {
            Err(e) => Err(e),
            Ok(head) => match tag_rows(local, program_id, tags[n - 1].0, tags[n - 1].1) {
                Err(e) => Err(e),
                Ok(rows) => Ok(head + rows),
            },
        }
    }
}

/// What a legacy record asks of local storage. A record that is no program
/// gives its master list row alone. A program gives the master list row, the
/// program row, and for each tag its settings row followed by its order
/// types.
pub open spec fn list_master_records(data: LegacyListMasterRowView, local: LocalDataView) -> Result<
    IntegrationRecordsView,
    TranslationErrorView,
> {
    let master_list = PullUpsertRecordView::MasterList(master_list_row(data));
    if !data.is_program {
        Ok(IntegrationRecordsView::from_upsert(master_list))
    } else {
        match data.program_settings {
            None => Err(TranslationErrorView::ProgramSettingsNotFound { program_id: data.id }),
            Some(settings) => match program_rows(
                local,
                data.id,
                settings.store_tags,
                settings.store_tags.len(),
            ) {
                Err(e) => Err(e),
                Ok(rows) => Ok(
                    IntegrationRecordsView::from_upserts(
                        seq![master_list, PullUpsertRecordView::Program(program_row(data))] + rows,
                    ),
                ),
            },
        }
    }
}

/// What the body of a received record asks of local storage, given what
/// parsing made of the body.
pub open spec fn list_master_upsert(
    parsed: Result<JsonView, Seq<char>>,
    local: LocalDataView,
) -> Result<Option<IntegrationRecordsView>, TranslationErrorView> {
    match parsed {
        Err(message) => Err(TranslationErrorView::InvalidJson(message)),
        Ok(doc) => match list_master_row_of(doc) {
            Err(shape) => Err(TranslationErrorView::InvalidShape(shape)),
            Ok(data) => match list_master_records(data, local) {
                Err(e) => Err(e),
                Ok(records) => Ok(Some(records)),
            },
        },
    }
}

/// An error among the first `n` tags is the error of every longer run of
/// tags.
pub proof fn lemma_program_rows_error(
    local: LocalDataView,
    program_id: Seq<char>,
    tags: Seq<(Seq<char>, LegacyStoreTagView)>,
    n: nat,
    m: nat,
)
    requires
        n <= m <= tags.len(),
        program_rows(local, program_id, tags, n) is Err,
    ensures
        program_rows(local, program_id, tags, m) == program_rows(local, program_id, tags, n),
    decreases m,
{
    if n < m {
        lemma_program_rows_error(local, program_id, tags, n, (m - 1) as nat);
    }
}

/// Whether the record belongs to the legacy table of master lists.
pub fn match_pull_table(sync_record: &SyncBufferRow) -> (r: bool)
    ensures
        r == (sync_record@.table_name == LegacyTableName::LIST_MASTER@),
{
    sync_record.table_name == LegacyTableName::LIST_MASTER.to_owned()
}

/// Looks up the name tag called `tag_name` and the period schedule that the
/// tag's settings name, and gives the ids of the two.
pub fn get_name_tag_and_period_schedule_id(
    local: &LocalData,
    tag_name: &String,
    store_tag: &LegacyStoreTag,
    id: &String,
) -> (r: Result<(String, String), TranslationError>)
    ensures
        match r {
            Ok((name_tag_id, period_schedule_id)) => name_tag_and_period_schedule_id(
                local@,
                tag_name@,
                store_tag@,
                id@,
            ) == Ok::<(Seq<char>, Seq<char>), TranslationErrorView>(
                (name_tag_id@, period_schedule_id@),
            ),
            Err(e) => name_tag_and_period_schedule_id(local@, tag_name@, store_tag@, id@) == Err::<
                (Seq<char>, Seq<char>),
                TranslationErrorView,
            >(e@),
        },
{
    let name_tag = match local.find_name_tag_by_name(tag_name) {
        Some(row) => row,
        None => {
            return Err(TranslationError::NameTagNotFound { program_id: id.clone() });
        },
    };
    let period_schedule = match local.find_period_schedule_by_name(
        &store_tag.period_schedule_name,
    ) {
        Some(row) => row,
        None => {
            return Err(TranslationError::PeriodScheduleNotFound { program_id: id.clone() });
        },
    };
    Ok((name_tag.id.clone(), period_schedule.id.clone()))
}

/// The outcome of a translation, as a value of specifications.
pub open spec fn records_outcome(r: Result<IntegrationRecords, TranslationError>) -> Result<
    IntegrationRecordsView,
    TranslationErrorView,
> {
    match r {
        Ok(records) => Ok(records@),
        Err(e) => Err(e@),
    }
}

/// Translates a legacy record into the rows that it stands for.
pub fn translate_list_master(data: &LegacyListMasterRow, local: &LocalData) -> (r: Result<
    IntegrationRecords,
    TranslationError,
>)
    ensures
        records_outcome(r) == list_master_records(data@, local@),
{
    let master_list = MasterListRow {
        id: data.id.clone(),
        name: data.description.clone(),
        code: data.code.clone(),
        description: data.note.clone(),
    };
    if !data.is_program {
        return Ok(IntegrationRecords::from_upsert(PullUpsertRecord::MasterList(master_list)));
    }
    let program_settings = match &data.program_settings {
        Some(settings) => settings,
        None => {
            return Err(TranslationError::ProgramSettingsNotFound { program_id: data.id.clone() });
        },
    };
    let program = ProgramRow {
        id: data.id.clone(),
        name: data.description.clone(),
        master_list_id: data.id.clone(),
    };
    let tags = &program_settings.store_tags.tags;
    let ghost base = seq![
        PullUpsertRecordView::MasterList(master_list_row(data@)),
        PullUpsertRecordView::Program(program_row(data@)),
    ];
    let mut upserts: Vec<PullUpsertRecord> = Vec::new();
    upserts.push(PullUpsertRecord::MasterList(master_list));
    upserts.push(PullUpsertRecord::Program(program));
    let ghost mut rows: Seq<PullUpsertRecordView> = Seq::empty();
    assert(views(upserts@) =~= base + rows);
    let mut i: usize = 0;
    while i < tags.len()
        invariant
            i <= tags.len(),
            data@.is_program,
            data@.program_settings == Some(program_settings@),
            program_settings@.store_tags == views(tags@),
            program_rows(local@, data@.id, views(tags@), i as nat) == Ok::<
                Seq<PullUpsertRecordView>,
                TranslationErrorView,
            >(rows),
            views(upserts@) == base + rows,
        decreases tags.len() - i,
    {
        let tag_name = &tags[i].0;
        let store_tag = &tags[i].1;
        assert(views(tags@)[i as int] == (tag_name@, store_tag@));
        let (name_tag_id, period_schedule_id) = match get_name_tag_and_period_schedule_id(
            local,
            tag_name,
            store_tag,
            &data.id,
        ) {
            Ok(ids) => ids,
            Err(e) => {
                proof {
                    assert(program_rows(local@, data@.id, views(tags@), (i + 1) as nat) == Err::<
                        Seq<PullUpsertRecordView>,
                        TranslationErrorView,
                    >(e@));
                    lemma_program_rows_error(
                        local@,
                        data@.id,
                        views(tags@),
                        (i + 1) as nat,
                        tags@.len(),
                    );
                }
                return Err(e);
            },
        };
        let settings_id = data.id.clone().concat(name_tag_id.as_str());
        let settings = ProgramRequisitionSettingsRow {
            id: settings_id.clone(),
            name_tag_id,
            program_id: data.id.clone(),
            period_schedule_id,
        };
        let ghost expected = order_type_rows(settings_id@, store_tag@.order_types);
        let ghost before = base + rows + seq![
            PullUpsertRecordView::ProgramRequisitionSettings(settings@),
        ];
        proof {
            lemma_views_push(upserts@, PullUpsertRecord::ProgramRequisitionSettings(settings));
        }
        upserts.push(PullUpsertRecord::ProgramRequisitionSettings(settings));
        assert(views(upserts@) =~= before + expected.take(0));
        let mut j: usize = 0;
        while j < store_tag.order_types.len()
            invariant
                j <= store_tag.order_types.len(),
                expected == order_type_rows(settings_id@, store_tag@.order_types),
                views(upserts@) == before + expected.take(j as int),
            decreases store_tag.order_types.len() - j,
        {
            let order_type = &store_tag.order_types[j];
            let row = ProgramRequisitionOrderTypeRow {
                id: settings_id.clone().concat(order_type.name.as_str()),
                program_requisition_settings_id: settings_id.clone(),
                name: order_type.name.clone(),
                threshold_mos: order_type.threshold_mos,
                max_mos: order_type.max_mos,
                max_order_per_period: order_type.max_order_per_period,
            };
            proof {
                lemma_views_push(upserts@, PullUpsertRecord::ProgramRequisitionOrderType(row));
                assert(expected[j as int] == PullUpsertRecordView::ProgramRequisitionOrderType(
                    row@,
                ));
                assert(expected.take(j + 1) =~= expected.take(j as int).push(expected[j as int]));
            }
            upserts.push(PullUpsertRecord::ProgramRequisitionOrderType(row));
            assert(views(upserts@) =~= before + expected.take(j + 1));
            j += 1;
        }
        proof {
            assert(expected.take(expected.len() as int) =~= expected);
            let added = seq![PullUpsertRecordView::ProgramRequisitionSettings(settings@)]
                + expected;
            assert(tag_rows(local@, data@.id, tag_name@, store_tag@) == Ok::<
                Seq<PullUpsertRecordView>,
                TranslationErrorView,
            >(added));
            assert(views(upserts@) =~= base + (rows + added));
            rows = rows + added;
        }
        i += 1;
    }
    Ok(IntegrationRecords::from_upserts(upserts))
}

/// Translates the body of a received record of the master list table, given
/// what parsing made of the body.
pub fn translate_list_master_document(parsed: Result<Json, String>, local: &LocalData) -> (r:
    Result<Option<IntegrationRecords>, TranslationError>)
    ensures
        pull_outcome(r) == list_master_upsert(
            match parsed {
                Ok(doc) => Ok(doc@),
                Err(message) => Err(message@),
            },
            local@,
        ),
{
    let doc = match parsed {
        Ok(doc) => doc,
        Err(message) => {
            return Err(TranslationError::InvalidJson(message));
        },
    };
    let data = match LegacyListMasterRow::from_json(&doc) {
        Ok(data) => data,
        Err(shape) => {
            return Err(TranslationError::InvalidShape(shape));
        },
    };
    match translate_list_master(&data, local) {
        Ok(records) => Ok(Some(records)),
        Err(e) => Err(e),
    }
}

/// The translator of master lists.
#[derive(Debug, Clone, Copy, PartialEq, Eq)]
pub struct MasterListTranslation {}

impl SyncTranslation for MasterListTranslation {
    open spec fn pull_upsert(&self, local: LocalDataView, row: SyncBufferRowView) -> PullAnswerView {
        if row.table_name != LegacyTableName::LIST_MASTER@ {
            Ok(None)
        } else {
            list_master_upsert(json_of_text(row.data), local)
        }
    }

    open spec fn pull_delete(&self, local: LocalDataView, row: SyncBufferRowView) -> PullAnswerView {
        if row.table_name != LegacyTableName::LIST_MASTER@ {
            Ok(None)
        } else {
            Ok(
                Some(
                    IntegrationRecordsView::from_delete(
                        row.record_id,
                        PullDeleteRecordTable::MasterList,
                    ),
                ),
            )
        }
    }

    open spec fn push(&self, local: LocalDataView, changelog: ChangelogRowView) -> PushAnswerView {
        Ok(None)
    }

    fn try_translate_pull_upsert(&self, local: &LocalData, row: &SyncBufferRow) -> (r: Result<
        Option<IntegrationRecords>,
        TranslationError,
    >) {
        if !match_pull_table(row) {
            return Ok(None);
        }
        translate_list_master_document(Json::parse(row.data.as_str()), local)
    }

    fn try_translate_pull_delete(&self, local: &LocalData, row: &SyncBufferRow) -> (r: Result<
        Option<IntegrationRecords>,
        TranslationError,
    >) {
        if !match_pull_table(row) {
            return Ok(None);
        }
        Ok(
            Some(
                IntegrationRecords::from_delete(
                    row.record_id.as_str(),
                    PullDeleteRecordTable::MasterList,
                ),
            ),
        )
    }

    fn try_translate_push(&self, local: &LocalData, changelog: &ChangelogRow) -> (r: Result<
        Option<Vec<PushUpsertRecord>>,
        TranslationError,
    >) {
        Ok(None)
    }
}

} // verus!
