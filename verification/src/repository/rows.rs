//! Row types of the normalized tables.

use vstd::prelude::*;

verus! {

/// A tag that groups names, such as the stores that take part in a program.
#[derive(Debug, Clone, PartialEq)]
pub struct NameTagRow {
    pub id: String,
    pub name: String,
}

pub struct NameTagRowView {
    pub id: Seq<char>,
    pub name: Seq<char>,
}

impl View for NameTagRow {
    type V = NameTagRowView;

    open spec fn view(&self) -> NameTagRowView {
        NameTagRowView { id: self.id@, name: self.name@ }
    }
}

/// A schedule of ordering periods, found by its name.
#[derive(Debug, Clone, PartialEq)]
pub struct PeriodScheduleRow {
    pub id: String,
    pub name: String,
}

pub struct PeriodScheduleRowView {
    pub id: Seq<char>,
    pub name: Seq<char>,
}

impl View for PeriodScheduleRow {
    type V = PeriodScheduleRowView;

    open spec fn view(&self) -> PeriodScheduleRowView {
        PeriodScheduleRowView { id: self.id@, name: self.name@ }
    }
}

#[derive(Debug, Clone, PartialEq)]
pub struct MasterListRow {
    pub id: String,
    pub name: String,
    pub code: String,
    pub description: String,
}

pub struct MasterListRowView {
    pub id: Seq<char>,
    pub name: Seq<char>,
    pub code: Seq<char>,
    pub description: Seq<char>,
}

impl View for MasterListRow {
    type V = MasterListRowView;

    open spec fn view(&self) -> MasterListRowView {
        MasterListRowView {
            id: self.id@,
            name: self.name@,
            code: self.code@,
            description: self.description@,
        }
    }
}

#[derive(Debug, Clone, PartialEq)]
pub struct ProgramRow {
    pub id: String,
    pub name: String,
    pub master_list_id: String,
}

pub struct ProgramRowView {
    pub id: Seq<char>,
    pub name: Seq<char>,
    pub master_list_id: Seq<char>,
}

impl View for ProgramRow {
    type V = ProgramRowView;

    open spec fn view(&self) -> ProgramRowView {
        ProgramRowView { id: self.id@, name: self.name@, master_list_id: self.master_list_id@ }
    }
}

/// The requisition settings of one program for the names that carry one tag.
#[derive(Debug, Clone, PartialEq, Default)]
pub struct ProgramRequisitionSettingsRow {
    pub id: String,
    pub name_tag_id: String,
    pub program_id: String,
    pub period_schedule_id: String,
}

pub struct ProgramRequisitionSettingsRowView {
    pub id: Seq<char>,
    pub name_tag_id: Seq<char>,
    pub program_id: Seq<char>,
    pub period_schedule_id: Seq<char>,
}

impl View for ProgramRequisitionSettingsRow {
    type V = ProgramRequisitionSettingsRowView;

    open spec fn view(&self) -> ProgramRequisitionSettingsRowView {
        ProgramRequisitionSettingsRowView {
            id: self.id@,
            name_tag_id: self.name_tag_id@,
            program_id: self.program_id@,
            period_schedule_id: self.period_schedule_id@,
        }
    }
}

/// One kind of order that the settings of a program allow.
#[derive(Debug, Clone, PartialEq)]
pub struct ProgramRequisitionOrderTypeRow {
    pub id: String,
    pub program_requisition_settings_id: String,
    pub name: String,
    pub threshold_mos: i32,
    pub max_mos: i32,
    pub max_order_per_period: i32,
}

pub struct ProgramRequisitionOrderTypeRowView {
    pub id: Seq<char>,
    pub program_requisition_settings_id: Seq<char>,
    pub name: Seq<char>,
    pub threshold_mos: i32,
    pub max_mos: i32,
    pub max_order_per_period: i32,
}

impl View for ProgramRequisitionOrderTypeRow {
    type V = ProgramRequisitionOrderTypeRowView;

    open spec fn view(&self) -> ProgramRequisitionOrderTypeRowView {
        ProgramRequisitionOrderTypeRowView {
            id: self.id@,
            program_requisition_settings_id: self.program_requisition_settings_id@,
            name: self.name@,
            threshold_mos: self.threshold_mos,
            max_mos: self.max_mos,
            max_order_per_period: self.max_order_per_period,
        }
    }
}

} // verus!
