//! Rows for trying the translators out.

use crate::repository::rows::{NameTagRow, PeriodScheduleRow};
use vstd::prelude::*;

verus! {

pub fn mock_name_tag_1() -> (r: NameTagRow)
    ensures
        r@.id == "name_tag_1"@,
        r@.name == "NewProgramTag1"@,
{
    NameTagRow { id: String::from_str("name_tag_1"), name: String::from_str("NewProgramTag1") }
}

pub fn mock_name_tag_2() -> (r: NameTagRow)
    ensures
        r@.id == "name_tag_2"@,
        r@.name == "NewProgramTag2"@,
{
    NameTagRow { id: String::from_str("name_tag_2"), name: String::from_str("NewProgramTag2") }
}

pub fn mock_name_tag_3() -> (r: NameTagRow)
    ensures
        r@.id == "name_tag_3"@,
        r@.name == "NewProgramTag3"@,
{
    NameTagRow { id: String::from_str("name_tag_3"), name: String::from_str("NewProgramTag3") }
}

pub fn mock_name_tags() -> (r: Vec<NameTagRow>)
    ensures
        r@.len() == 1,
        r@[0]@.id == "name_tag_1"@,
        r@[0]@.name == "NewProgramTag1"@,
{
    vec![mock_name_tag_1()]
}

pub fn mock_period_schedule_1() -> (r: PeriodScheduleRow)
    ensures
        r@.id == "mock_period_schedule_1"@,
        r@.name == "Monthly"@,
{
    PeriodScheduleRow {
        id: String::from_str("mock_period_schedule_1"),
        name: String::from_str("Monthly"),
    }
}

pub fn mock_period_schedule_2() -> (r: PeriodScheduleRow)
    ensures
        r@.id == "mock_period_schedule_2"@,
        r@.name == "Weekly"@,
{
    PeriodScheduleRow {
        id: String::from_str("mock_period_schedule_2"),
        name: String::from_str("Weekly"),
    }
}

} // verus!
