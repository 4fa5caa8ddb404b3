//! The local rows that translators look references up in.

use crate::repository::rows::{NameTagRow, NameTagRowView, PeriodScheduleRow, PeriodScheduleRowView};
use crate::views::views;
use vstd::prelude::*;

verus! {

/// The rows, synced earlier, in which a translator resolves the references
/// of a record.
#[derive(Debug, Clone, PartialEq)]
pub struct LocalData {
    pub name_tags: Vec<NameTagRow>,
    pub period_schedules: Vec<PeriodScheduleRow>,
}

pub struct LocalDataView {
    pub name_tags: Seq<NameTagRowView>,
    pub period_schedules: Seq<PeriodScheduleRowView>,
}

impl View for LocalData {
    type V = LocalDataView;

    open spec fn view(&self) -> LocalDataView {
        LocalDataView {
            name_tags: views(self.name_tags@),
            period_schedules: views(self.period_schedules@),
        }
    }
}

/// The first name tag at or after `from` that is called `name`.
pub open spec fn name_tag_from(rows: Seq<NameTagRowView>, name: Seq<char>, from: int) -> Option<
    NameTagRowView,
>
    decreases rows.len() - from,
{
    if from < 0 || from >= rows.len() {
        None
    } else if rows[from].name == name {
        Some(rows[from])
    } else {
        name_tag_from(rows, name, from + 1)
    }
}

/// The first period schedule at or after `from` that is called `name`.
pub open spec fn period_schedule_from(
    rows: Seq<PeriodScheduleRowView>,
    name: Seq<char>,
    from: int,
) -> Option<PeriodScheduleRowView>
    decreases rows.len() - from,
{
    if from < 0 || from >= rows.len() {
        None
    } else if rows[from].name == name {
        Some(rows[from])
    } else {
        period_schedule_from(rows, name, from + 1)
    }
}

impl LocalDataView {
    /// The first name tag called `name`.
    pub open spec fn name_tag_by_name(self, name: Seq<char>) -> Option<NameTagRowView> {
        name_tag_from(self.name_tags, name, 0)
    }

    /// The first period schedule called `name`.
    pub open spec fn period_schedule_by_name(self, name: Seq<char>) -> Option<
        PeriodScheduleRowView,
    > {
        period_schedule_from(self.period_schedules, name, 0)
    }
}

impl LocalData {
    /// No rows at all.
    pub fn new() -> (r: LocalData)
        ensures
            r@.name_tags.len() == 0,
            r@.period_schedules.len() == 0,
    {
        LocalData { name_tags: Vec::new(), period_schedules: Vec::new() }
    }

    /// The first name tag called `name`, if there is one.
    pub fn find_name_tag_by_name(&self, name: &String) -> (r: Option<&NameTagRow>)
        ensures
            match r {
                Some(row) => self@.name_tag_by_name(name@) == Some(row@),
                None => self@.name_tag_by_name(name@) is None,
            },
    {
        let mut i: usize = 0;
        while i < self.name_tags.len()
            invariant
                i <= self.name_tags.len(),
                name_tag_from(self@.name_tags, name@, 0) == name_tag_from(
                    self@.name_tags,
                    name@,
                    i as int,
                ),
            decreases self.name_tags.len() - i,
        {
            if self.name_tags[i].name == *name {
                return Some(&self.name_tags[i]);
            }
            i += 1;
        }
        None
    }

    /// The first period schedule called `name`, if there is one.
    pub fn find_period_schedule_by_name(&self, name: &String) -> (r: Option<&PeriodScheduleRow>)
        ensures
            match r {
                Some(row) => self@.period_schedule_by_name(name@) == Some(row@),
                None => self@.period_schedule_by_name(name@) is None,
            },
    {
        let mut i: usize = 0;
        while i < self.period_schedules.len()
            invariant
                i <= self.period_schedules.len(),
                period_schedule_from(self@.period_schedules, name@, 0) == period_schedule_from(
                    self@.period_schedules,
                    name@,
                    i as int,
                ),
            decreases self.period_schedules.len() - i,
        {
            if self.period_schedules[i].name == *name {
                return Some(&self.period_schedules[i]);
            }
            i += 1;
        }
        None
    }
}

} // verus!
