//! How many rows a program expands into.

use crate::repository::local_data::LocalDataView;
use crate::sync::translations::PullUpsertRecordView;
use crate::sync::translations::master_list::{
    list_master_records, order_type_rows, program_rows, tag_rows, LegacyListMasterRowView,
    LegacyStoreTagView,
};
use vstd::prelude::*;

verus! {

/// The tables that a translated master list is written to.
pub enum ProgramTable {
    MasterList,
    Program,
    Settings,
    OrderType,
}

/// The table that a row goes to.
pub open spec fn table_of(record: PullUpsertRecordView) -> ProgramTable {
    match record {
        PullUpsertRecordView::MasterList(_) => ProgramTable::MasterList,
        PullUpsertRecordView::Program(_) => ProgramTable::Program,
        PullUpsertRecordView::ProgramRequisitionSettings(_) => ProgramTable::Settings,
        PullUpsertRecordView::ProgramRequisitionOrderType(_) => ProgramTable::OrderType,
    }
}

/// How many of the first `n` rows go to `table`.
pub open spec fn rows_for(rows: Seq<PullUpsertRecordView>, table: ProgramTable, n: nat) -> nat
    decreases n,
{
    if n == 0 || n > rows.len() {
        0
    } else {
        let before = rows_for(rows, table, (n - 1) as nat);
        if table_of(rows[n - 1]) == table {
            before + 1
        } else {
            before
        }
    }
}

/// How many order types the first `n` tags have between them.
pub open spec fn order_types_in(tags: Seq<(Seq<char>, LegacyStoreTagView)>, n: nat) -> nat
    decreases n,
{
    if n == 0 || n > tags.len() {
        0
    } else {
        order_types_in(tags, (n - 1) as nat) + tags[n - 1].1.order_types.len()
    }
}

/// The rows of two runs of rows add up, table by table.
pub proof fn lemma_rows_for_add(
    left: Seq<PullUpsertRecordView>,
    right: Seq<PullUpsertRecordView>,
    table: ProgramTable,
    n: nat,
)
    requires
        n <= right.len(),
    ensures
        rows_for(left + right, table, left.len() + n) == rows_for(left, table, left.len())
            + rows_for(right, table, n),
    decreases n,
{
    let all = left + right;
    if n == 0 {
        lemma_rows_for_prefix(all, left, table, left.len());
    } else {
        lemma_rows_for_add(left, right, table, (n - 1) as nat);
        assert(all[left.len() + n - 1] == right[n - 1]);
    }
}

/// The count over a prefix looks at the prefix only.
pub proof fn lemma_rows_for_prefix(
    all: Seq<PullUpsertRecordView>,
    head: Seq<PullUpsertRecordView>,
    table: ProgramTable,
    n: nat,
)
    requires
        n <= head.len() <= all.len(),
        forall|i: int| 0 <= i < head.len() ==> all[i] == head[i],
    ensures
        rows_for(all, table, n) == rows_for(head, table, n),
    decreases n,
{
    if n > 0 {
        lemma_rows_for_prefix(all, head, table, (n - 1) as nat);
    }
}

/// The rows of order types are rows of order types, all of them.
pub proof fn lemma_order_type_rows_count(
    settings_id: Seq<char>,
    order_types: Seq<crate::sync::translations::master_list::LegacyOrderTypeView>,
    table: ProgramTable,
    n: nat,
)
    requires
        n <= order_types.len(),
    ensures
        rows_for(order_type_rows(settings_id, order_types), table, n) == if table
            is OrderType {
            n
        } else {
            0
        },
    decreases n,
{
    if n > 0 {
        lemma_order_type_rows_count(settings_id, order_types, table, (n - 1) as nat);
    }
}

/// One tag gives one settings row and one row for each of its order types.
pub proof fn lemma_tag_rows_count(
    local: LocalDataView,
    program_id: Seq<char>,
    tag_name: Seq<char>,
    store_tag: LegacyStoreTagView,
    table: ProgramTable,
)
    requires
        tag_rows(local, program_id, tag_name, store_tag) is Ok,
    ensures
        ({
            let rows = tag_rows(local, program_id, tag_name, store_tag)->Ok_0;
            rows_for(rows, table, rows.len()) == match table {
                ProgramTable::Settings => 1,
                ProgramTable::OrderType => store_tag.order_types.len(),
                _ => 0,
            }
        }),
{
    let rows = tag_rows(local, program_id, tag_name, store_tag)->Ok_0;
    let head = seq![rows[0]];
    let tail = order_type_rows(head[0]->ProgramRequisitionSettings_0.id, store_tag.order_types);
    assert(rows == head + tail);
    lemma_order_type_rows_count(
        head[0]->ProgramRequisitionSettings_0.id,
        store_tag.order_types,
        table,
        store_tag.order_types.len(),
    );
    lemma_rows_for_add(head, tail, table, tail.len());
    assert(rows_for(head, table, 1) == if table is Settings {
        1nat
    } else {
        0nat
    }) by {
        assert(rows_for(head, table, 0) == 0);
    }
}

/// The tags of a program give one settings row each, and one row for each
/// of their order types.
pub proof fn lemma_program_rows_count(
    local: LocalDataView,
    program_id: Seq<char>,
    tags: Seq<(Seq<char>, LegacyStoreTagView)>,
    table: ProgramTable,
    n: nat,
)
    requires
        n <= tags.len(),
        program_rows(local, program_id, tags, n) is Ok,
    ensures
        ({
            let rows = program_rows(local, program_id, tags, n)->Ok_0;
            rows_for(rows, table, rows.len()) == match table {
                ProgramTable::Settings => n,
                ProgramTable::OrderType => order_types_in(tags, n),
                _ => 0,
            }
        }),
    decreases n,
{
    if n > 0 {
        lemma_program_rows_count(local, program_id, tags, table, (n - 1) as nat);
        let head = program_rows(local, program_id, tags, (n - 1) as nat)->Ok_0;
        let tail = tag_rows(local, program_id, tags[n - 1].0, tags[n - 1].1)->Ok_0;
        lemma_tag_rows_count(local, program_id, tags[n - 1].0, tags[n - 1].1, table);
        lemma_rows_for_add(head, tail, table, tail.len());
    }
}

/// Expansion: a program that translates gives exactly one master list row,
/// one program row, one settings row for each of its tags and one row for
/// each order type of each tag, and nothing else. Two tags of two order
/// types each give 1 + 1 + 2 + 4 rows.
pub proof fn lemma_program_expansion(data: LegacyListMasterRowView, local: LocalDataView)
    requires
        data.is_program,
        list_master_records(data, local) is Ok,
    ensures
        ({
            let records = list_master_records(data, local)->Ok_0;
            let tags = data.program_settings->Some_0.store_tags;
            let rows = records.upserts;
            &&& records.deletes.len() == 0
            &&& rows_for(rows, ProgramTable::MasterList, rows.len()) == 1
            &&& rows_for(rows, ProgramTable::Program, rows.len()) == 1
            &&& rows_for(rows, ProgramTable::Settings, rows.len()) == tags.len()
            &&& rows_for(rows, ProgramTable::OrderType, rows.len()) == order_types_in(
                tags,
                tags.len(),
            )
            &&& rows.len() == 2 + tags.len() + order_types_in(tags, tags.len())
        }),
{
    let records = list_master_records(data, local)->Ok_0;
    let tags = data.program_settings->Some_0.store_tags;
    let rows = records.upserts;
    let tail = program_rows(local, data.id, tags, tags.len())->Ok_0;
    let head = seq![rows[0], rows[1]];
    assert(rows == head + tail);
    lemma_program_rows_count(local, data.id, tags, ProgramTable::MasterList, tags.len());
    lemma_program_rows_count(local, data.id, tags, ProgramTable::Program, tags.len());
    lemma_program_rows_count(local, data.id, tags, ProgramTable::Settings, tags.len());
    lemma_program_rows_count(local, data.id, tags, ProgramTable::OrderType, tags.len());
    lemma_rows_for_add(head, tail, ProgramTable::MasterList, tail.len());
    lemma_rows_for_add(head, tail, ProgramTable::Program, tail.len());
    lemma_rows_for_add(head, tail, ProgramTable::Settings, tail.len());
    lemma_rows_for_add(head, tail, ProgramTable::OrderType, tail.len());
    lemma_head_counts(head);
    lemma_rows_total(tail, tail.len());
}

/// The two rows that every program starts with.
proof fn lemma_head_counts(head: Seq<PullUpsertRecordView>)
    requires
        head.len() == 2,
        head[0] is MasterList,
        head[1] is Program,
    ensures
        rows_for(head, ProgramTable::MasterList, 2) == 1,
        rows_for(head, ProgramTable::Program, 2) == 1,
        rows_for(head, ProgramTable::Settings, 2) == 0,
        rows_for(head, ProgramTable::OrderType, 2) == 0,
{
    assert(rows_for(head, ProgramTable::MasterList, 0) == 0);
    assert(rows_for(head, ProgramTable::MasterList, 1) == 1);
    assert(rows_for(head, ProgramTable::Program, 0) == 0);
    assert(rows_for(head, ProgramTable::Program, 1) == 0);
    assert(rows_for(head, ProgramTable::Settings, 0) == 0);
    assert(rows_for(head, ProgramTable::Settings, 1) == 0);
    assert(rows_for(head, ProgramTable::OrderType, 0) == 0);
    assert(rows_for(head, ProgramTable::OrderType, 1) == 0);
}

/// Every row goes to one of the four tables.
pub proof fn lemma_rows_total(rows: Seq<PullUpsertRecordView>, n: nat)
    requires
        n <= rows.len(),
    ensures
        rows_for(rows, ProgramTable::MasterList, n) + rows_for(rows, ProgramTable::Program, n)
            + rows_for(rows, ProgramTable::Settings, n) + rows_for(
            rows,
            ProgramTable::OrderType,
            n,
        ) == n,
    decreases n,
{
    if n > 0 {
        lemma_rows_total(rows, (n - 1) as nat);
    }
}

} // verus!
