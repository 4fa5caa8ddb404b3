//! The log of the runs of synchronisation. Each run has one row: it is
//! written when the run starts, updated as the run gets on, and kept.
//!
//! Moments are counted in milliseconds since the start of 1970.

use crate::views::{lemma_views_push, views};
use vstd::prelude::*;
use vstd::seq_lib::to_multiset_insert;

verus! {

/// One run of synchronisation.
#[derive(Debug, Clone, PartialEq)]
pub struct SyncLogRow {
    pub id: String,
    /// When the run started.
    pub started_datetime: i64,
    /// When the run ended; `None` while it has not.
    pub done_datetime: Option<i64>,
    /// When the first full pull of the site was complete; `None` while it is
    /// not. A site that has it set is past its first synchronisation.
    pub prepare_initial_done_datetime: Option<i64>,
}

#[derive(Debug, Clone, PartialEq)]
pub struct SyncLog {
    pub sync_log_row: SyncLogRow,
}

pub struct SyncLogRowView {
    pub id: Seq<char>,
    pub started_datetime: i64,
    pub done_datetime: Option<i64>,
    pub prepare_initial_done_datetime: Option<i64>,
}

impl View for SyncLogRow {
    type V = SyncLogRowView;

    open spec fn view(&self) -> SyncLogRowView {
        SyncLogRowView {
            id: self.id@,
            started_datetime: self.started_datetime,
            done_datetime: self.done_datetime,
            prepare_initial_done_datetime: self.prepare_initial_done_datetime,
        }
    }
}

impl SyncLogRow {
    /// The row of a run that starts at `now`.
    pub fn start(id: String, now: i64) -> (r: SyncLogRow)
        ensures
            r@ == (SyncLogRowView {
                id: id@,
                started_datetime: now,
                done_datetime: None,
                prepare_initial_done_datetime: None,
            }),
    {
        SyncLogRow {
            id,
            started_datetime: now,
            done_datetime: None,
            prepare_initial_done_datetime: None,
        }
    }

    /// Marks that the first full pull is complete. A mark that is there
    /// stays as it is.
    pub fn prepare_initial_done(&mut self, now: i64)
        ensures
            final(self)@ == (SyncLogRowView {
                prepare_initial_done_datetime: match old(self).prepare_initial_done_datetime {
                    Some(earlier) => Some(earlier),
                    None => Some(now),
                },
                ..old(self)@
            }),
    {
        if self.prepare_initial_done_datetime.is_none() {
            self.prepare_initial_done_datetime = Some(now);
        }
    }

    /// Marks that the run has ended. The end of a run that has ended stays
    /// as it is.
    pub fn done(&mut self, now: i64)
        ensures
            final(self)@ == (SyncLogRowView {
                done_datetime: match old(self).done_datetime {
                    Some(earlier) => Some(earlier),
                    None => Some(now),
                },
                ..old(self)@
            }),
    {
        if self.done_datetime.is_none() {
            self.done_datetime = Some(now);
        }
    }

    /// Whether the run has ended.
    pub fn is_done(&self) -> (r: bool)
        ensures
            r == self.done_datetime is Some,
    {
        self.done_datetime.is_some()
    }

    /// Whether the first full pull is complete.
    pub fn is_initialised(&self) -> (r: bool)
        ensures
            r == self.prepare_initial_done_datetime is Some,
    {
        self.prepare_initial_done_datetime.is_some()
    }

    /// How long the run took, once it has ended; `None` as well where the
    /// difference of the two moments does not fit the type.
    pub fn duration(&self) -> (r: Option<i64>)
        ensures
            r == match self.done_datetime {
                Some(done) => if i64::MIN <= done - self.started_datetime <= i64::MAX {
                    Some((done - self.started_datetime) as i64)
                } else {
                    None
                },
                None => None,
            },
    {
        match self.done_datetime {
            Some(done) => done.checked_sub(self.started_datetime),
            None => None,
        }
    }
}

/// Wraps a row as an entry of the log.
pub fn to_domain(sync_log_row: SyncLogRow) -> (r: SyncLog)
    ensures
        r.sync_log_row == sync_log_row,
{
    SyncLog { sync_log_row }
}

/// A condition on a value: that it equals a given one.
#[derive(Debug, Clone, PartialEq)]
pub struct EqualFilter<T> {
    pub equal_to: Option<T>,
}

impl<T> EqualFilter<T> {
    pub fn equal_to(value: T) -> (r: EqualFilter<T>)
        ensures
            r.equal_to == Some(value),
    {
        EqualFilter { equal_to: Some(value) }
    }
}

impl EqualFilter<String> {
    /// Whether a text meets the condition.
    pub open spec fn admits(self, value: Seq<char>) -> bool {
        match self.equal_to {
            Some(wanted) => wanted@ == value,
            None => true,
        }
    }

    /// Whether a text meets the condition.
    pub fn matches(&self, value: &String) -> (r: bool)
        ensures
            r == self.admits(value@),
    {
        match &self.equal_to {
            Some(wanted) => *wanted == *value,
            None => true,
        }
    }
}

/// A condition on a moment: that it is a given moment, not after one, not
/// before one, or several of these.
#[derive(Debug, Clone, Copy, PartialEq, Default)]
pub struct DatetimeFilter {
    pub equal_to: Option<i64>,
    pub before_or_equal_to: Option<i64>,
    pub after_or_equal_to: Option<i64>,
}

impl DatetimeFilter {
    /// The moments from `from` to `to`, both of them included.
    pub fn date_range(from: i64, to: i64) -> (r: DatetimeFilter)
        ensures
            r == (DatetimeFilter {
                equal_to: None,
                after_or_equal_to: Some(from),
                before_or_equal_to: Some(to),
            }),
    {
        DatetimeFilter { equal_to: None, after_or_equal_to: Some(from), before_or_equal_to: Some(to) }
    }

    pub fn equal_to(value: i64) -> (r: DatetimeFilter)
        ensures
            r == (DatetimeFilter {
                equal_to: Some(value),
                after_or_equal_to: None,
                before_or_equal_to: None,
            }),
    {
        DatetimeFilter { equal_to: Some(value), after_or_equal_to: None, before_or_equal_to: None }
    }

    pub fn after_or_equal_to(value: i64) -> (r: DatetimeFilter)
        ensures
            r == (DatetimeFilter {
                equal_to: None,
                after_or_equal_to: Some(value),
                before_or_equal_to: None,
            }),
    {
        DatetimeFilter { equal_to: None, after_or_equal_to: Some(value), before_or_equal_to: None }
    }

    pub fn before_or_equal_to(value: i64) -> (r: DatetimeFilter)
        ensures
            r == (DatetimeFilter {
                equal_to: None,
                after_or_equal_to: None,
                before_or_equal_to: Some(value),
            }),
    {
        DatetimeFilter { equal_to: None, after_or_equal_to: None, before_or_equal_to: Some(value) }
    }

    /// Whether a moment meets every part of the condition. A moment that is
    /// not set meets no condition.
    pub open spec fn admits(self, value: Option<i64>) -> bool {
        match value {
            None => false,
            Some(moment) => {
                &&& self.equal_to matches Some(wanted) ==> moment == wanted
                &&& self.before_or_equal_to matches Some(latest) ==> moment <= latest
                &&& self.after_or_equal_to matches Some(earliest) ==> moment >= earliest
            },
        }
    }

    /// Whether a moment meets every part of the condition. A moment that is
    /// not set meets no condition.
    pub fn matches(&self, value: Option<i64>) -> (r: bool)
        ensures
            r == self.admits(value),
    {
        let moment = match value {
            None => {
                return false;
            },
            Some(moment) => moment,
        };
        if let Some(wanted) = self.equal_to {
            if moment != wanted {
                return false;
            }
        }
        if let Some(latest) = self.before_or_equal_to {
            if moment > latest {
                return false;
            }
        }
        if let Some(earliest) = self.after_or_equal_to {
            if moment < earliest {
                return false;
            }
        }
        true
    }
}

/// Which runs to read from the log. A part that is not set lets every run
/// through.
#[derive(Debug, Clone, Default, PartialEq)]
pub struct SyncLogFilter {
    pub id: Option<EqualFilter<String>>,
    pub prepare_initial_done_datetime: Option<DatetimeFilter>,
}

/// What the runs read from the log can be sorted by.
#[derive(PartialEq, Debug, Clone, Copy)]
pub enum SyncLogSortField {
    StartedDatetime,
    DoneDatetime,
}

impl SyncLogSortField {
    /// The moment of a run that the field sorts by.
    pub fn key(&self, row: &SyncLogRow) -> (r: Option<i64>)
        ensures
            r == match self {
                SyncLogSortField::StartedDatetime => Some(row.started_datetime),
                SyncLogSortField::DoneDatetime => row.done_datetime,
            },
    {
        match self {
            SyncLogSortField::StartedDatetime => Some(row.started_datetime),
            SyncLogSortField::DoneDatetime => row.done_datetime,
        }
    }
}

impl SyncLogFilter {
    /// The filter that lets every run through.
    pub fn new() -> (r: SyncLogFilter)
        ensures
            r.id is None,
            r.prepare_initial_done_datetime is None,
    {
        SyncLogFilter { id: None, prepare_initial_done_datetime: None }
    }

    pub fn id(self, value: EqualFilter<String>) -> (r: SyncLogFilter)
        ensures
            r.id == Some(value),
            r.prepare_initial_done_datetime == self.prepare_initial_done_datetime,
    {
        let mut filter = self;
        filter.id = Some(value);
        filter
    }

    pub fn prepare_initial_done_datetime(self, value: DatetimeFilter) -> (r: SyncLogFilter)
        ensures
            r.id == self.id,
            r.prepare_initial_done_datetime == Some(value),
    {
        let mut filter = self;
        filter.prepare_initial_done_datetime = Some(value);
        filter
    }

    /// Whether a run meets every part of the filter that is set.
    pub open spec fn admits(self, row: SyncLogRowView) -> bool {
        &&& self.id matches Some(id) ==> id.admits(row.id)
        &&& self.prepare_initial_done_datetime matches Some(moment) ==> moment.admits(
            row.prepare_initial_done_datetime,
        )
    }

    /// Whether a run meets every part of the filter that is set.
    pub fn matches(&self, row: &SyncLogRow) -> (r: bool)
        ensures
            r == self.admits(row@),
    {
        if let Some(id) = &self.id {
            if !id.matches(&row.id) {
                return false;
            }
        }
        if let Some(moment) = &self.prepare_initial_done_datetime {
            if !moment.matches(row.prepare_initial_done_datetime) {
                return false;
            }
        }
        true
    }
}

impl View for SyncLog {
    type V = SyncLogRowView;

    open spec fn view(&self) -> SyncLogRowView {
        self.sync_log_row@
    }
}

/// Which part of the runs to read: `limit` runs at most, after the first
/// `offset` of them.
#[derive(Debug, Clone, Copy, PartialEq, Eq)]
pub struct Pagination {
    pub offset: u32,
    pub limit: u32,
}

/// The number of runs that are read where no other is asked for.
pub const DEFAULT_LIMIT: u32 = 100;

impl Pagination {
    pub fn new() -> (r: Pagination)
        ensures
            r == (Pagination { offset: 0, limit: DEFAULT_LIMIT }),
    {
        Pagination { offset: 0, limit: DEFAULT_LIMIT }
    }

    pub fn one() -> (r: Pagination)
        ensures
            r == (Pagination { offset: 0, limit: 1 }),
    {
        Pagination { offset: 0, limit: 1 }
    }
}

/// What to sort by, and whether downwards.
#[derive(Debug, Clone, Copy, PartialEq)]
pub struct Sort<T> {
    pub key: T,
    pub desc: Option<bool>,
}

pub type SyncLogSort = Sort<SyncLogSortField>;

/// The moment of a run that a field sorts by.
pub open spec fn sort_key(row: SyncLogRowView, field: SyncLogSortField) -> Option<i64> {
    match field {
        SyncLogSortField::StartedDatetime => Some(row.started_datetime),
        SyncLogSortField::DoneDatetime => row.done_datetime,
    }
}

/// Whether a run with the moment `a` must stand before one with the moment
/// `b`: whether `a` is the earlier one, or the later one when sorting
/// downwards. A moment that is not set is earlier than every moment.
pub open spec fn stands_before(a: Option<i64>, b: Option<i64>, desc: bool) -> bool {
    let earlier = match (a, b) {
        (None, None) => false,
        (None, Some(_)) => true,
        (Some(_), None) => false,
        (Some(x), Some(y)) => x < y,
    };
    let later = match (a, b) {
        (None, None) => false,
        (None, Some(_)) => false,
        (Some(_), None) => true,
        (Some(x), Some(y)) => x > y,
    };
    if desc {
        later
    } else {
        earlier
    }
}

/// Whether no run of a list stands after a run that it must stand before.
pub open spec fn in_order(rows: Seq<SyncLogRowView>, field: SyncLogSortField, desc: bool) -> bool {
    forall|i: int, j: int|
        0 <= i <= j < rows.len() ==> !stands_before(
            sort_key(#[trigger] rows[j], field),
            sort_key(#[trigger] rows[i], field),
            desc,
        )
}

/// The place at or after `from` at which a run with the moment `key` goes
/// into a list that is in order: before the first run that it must stand
/// before, and so after the runs of the same moment.
pub open spec fn place_from(
    rows: Seq<SyncLogRowView>,
    key: Option<i64>,
    field: SyncLogSortField,
    desc: bool,
    from: int,
) -> int
    decreases rows.len() - from,
{
    if from < 0 || from >= rows.len() {
        rows.len() as int
    } else if stands_before(key, sort_key(rows[from], field), desc) {
        from
    } else {
        place_from(rows, key, field, desc, from + 1)
    }
}

/// A list in order with one more run put at its place.
pub open spec fn with_run(
    rows: Seq<SyncLogRowView>,
    row: SyncLogRowView,
    field: SyncLogSortField,
    desc: bool,
) -> Seq<SyncLogRowView> {
    rows.insert(place_from(rows, sort_key(row, field), field, desc, 0), row)
}

/// The first `n` runs in order. Runs of the same moment keep the order in
/// which they come.
pub open spec fn sorted_runs(
    rows: Seq<SyncLogRowView>,
    field: SyncLogSortField,
    desc: bool,
    n: nat,
) -> Seq<SyncLogRowView>
    decreases n,
{
    if n == 0 || n > rows.len() {
        Seq::empty()
    } else {
        with_run(sorted_runs(rows, field, desc, (n - 1) as nat), rows[n - 1], field, desc)
    }
}

/// Those of the first `n` runs that a filter lets through, in their order.
/// Without a filter all of them pass.
pub open spec fn admitted_runs(
    rows: Seq<SyncLogRowView>,
    filter: Option<SyncLogFilter>,
    n: nat,
) -> Seq<SyncLogRowView>
    decreases n,
{
    if n == 0 || n > rows.len() {
        Seq::empty()
    } else {
        let before = admitted_runs(rows, filter, (n - 1) as nat);
        if filter matches Some(f) ==> f.admits(rows[n - 1]) {
            before.push(rows[n - 1])
        } else {
            before
        }
    }
}

/// The part of a list that a pagination asks for.
pub open spec fn page(rows: Seq<SyncLogRowView>, pagination: Pagination) -> Seq<SyncLogRowView> {
    let start = if pagination.offset <= rows.len() {
        pagination.offset as int
    } else {
        rows.len() as int
    };
    let end = if pagination.offset + pagination.limit <= rows.len() {
        pagination.offset + pagination.limit
    } else {
        rows.len() as int
    };
    rows.subrange(start, end)
}

/// The field and the direction that a sort asks for. Without a sort the
/// runs come by their start, the earliest first.
pub open spec fn sort_order(sort: Option<SyncLogSort>) -> (SyncLogSortField, bool) {
    match sort {
        Some(sort) => (
            sort.key,
            match sort.desc {
                Some(desc) => desc,
                None => false,
            },
        ),
        None => (SyncLogSortField::StartedDatetime, false),
    }
}

/// What a query gives: the runs that the filter lets through, sorted, and
/// of these the part that the pagination asks for.
pub open spec fn query_result(
    rows: Seq<SyncLogRowView>,
    pagination: Pagination,
    filter: Option<SyncLogFilter>,
    sort: Option<SyncLogSort>,
) -> Seq<SyncLogRowView> {
    let admitted = admitted_runs(rows, filter, rows.len());
    let (field, desc) = sort_order(sort);
    page(sorted_runs(admitted, field, desc, admitted.len()), pagination)
}

/// The place found from `from` on is past `from` and within the list; the
/// runs between the two do not have to stand behind the new one, and the
/// run at the place does.
pub proof fn lemma_place_from(
    rows: Seq<SyncLogRowView>,
    key: Option<i64>,
    field: SyncLogSortField,
    desc: bool,
    from: int,
)
    requires
        0 <= from <= rows.len(),
    ensures
        from <= place_from(rows, key, field, desc, from) <= rows.len(),
        forall|i: int|
            from <= i < place_from(rows, key, field, desc, from) ==> !stands_before(
                key,
                sort_key(#[trigger] rows[i], field),
                desc,
            ),
        place_from(rows, key, field, desc, from) < rows.len() ==> stands_before(
            key,
            sort_key(rows[place_from(rows, key, field, desc, from)], field),
            desc,
        ),
    decreases rows.len() - from,
{
    if from < rows.len() && !stands_before(key, sort_key(rows[from], field), desc) {
        lemma_place_from(rows, key, field, desc, from + 1);
    }
}

/// Putting a run at its place keeps a list in order, and adds that run and
/// no other.
pub proof fn lemma_with_run(
    rows: Seq<SyncLogRowView>,
    row: SyncLogRowView,
    field: SyncLogSortField,
    desc: bool,
)
    requires
        in_order(rows, field, desc),
    ensures
        in_order(with_run(rows, row, field, desc), field, desc),
        with_run(rows, row, field, desc).to_multiset() == rows.to_multiset().insert(row),
        with_run(rows, row, field, desc).len() == rows.len() + 1,
{
    let key = sort_key(row, field);
    let place = place_from(rows, key, field, desc, 0);
    lemma_place_from(rows, key, field, desc, 0);
    let after = with_run(rows, row, field, desc);
    to_multiset_insert(rows, place, row);
    assert forall|i: int, j: int| 0 <= i <= j < after.len() implies !stands_before(
        sort_key(#[trigger] after[j], field),
        sort_key(#[trigger] after[i], field),
        desc,
    ) by {
        if j < place {
            assert(after[i] == rows[i] && after[j] == rows[j]);
        } else if j == place {
            if i < place {
                assert(after[i] == rows[i]);
            }
        } else if i < place {
            assert(after[i] == rows[i] && after[j] == rows[j - 1]);
        } else if i == place {
            assert(after[j] == rows[j - 1]);
            assert(!stands_before(
                sort_key(rows[j - 1], field),
                sort_key(rows[place], field),
                desc,
            ));
        } else {
            assert(after[i] == rows[i - 1] && after[j] == rows[j - 1]);
        }
    }
}

/// Sorting puts the runs in order, and gives back the runs that it was
/// given, each as often as it was there.
pub proof fn lemma_sorted_runs(
    rows: Seq<SyncLogRowView>,
    field: SyncLogSortField,
    desc: bool,
    n: nat,
)
    requires
        n <= rows.len(),
    ensures
        in_order(sorted_runs(rows, field, desc, n), field, desc),
        sorted_runs(rows, field, desc, n).to_multiset() == rows.take(n as int).to_multiset(),
        sorted_runs(rows, field, desc, n).len() == n,
    decreases n,
{
    broadcast use vstd::seq_lib::group_to_multiset_ensures;

    if n == 0 {
        assert(rows.take(0) =~= Seq::empty());
    } else {
        lemma_sorted_runs(rows, field, desc, (n - 1) as nat);
        lemma_with_run(sorted_runs(rows, field, desc, (n - 1) as nat), rows[n - 1], field, desc);
        assert(rows.take(n as int) =~= rows.take(n - 1).push(rows[n - 1]));
    }
}

/// Sorting the first `n` runs looks at the first `n` runs only.
pub proof fn lemma_sorted_runs_prefix(
    all: Seq<SyncLogRowView>,
    head: Seq<SyncLogRowView>,
    field: SyncLogSortField,
    desc: bool,
    n: nat,
)
    requires
        n <= head.len() <= all.len(),
        forall|i: int| 0 <= i < head.len() ==> all[i] == head[i],
    ensures
        sorted_runs(all, field, desc, n) == sorted_runs(head, field, desc, n),
    decreases n,
{
    if n > 0 {
        lemma_sorted_runs_prefix(all, head, field, desc, (n - 1) as nat);
    }
}

/// The runs of the log, to read from.
#[derive(Debug, Clone, PartialEq)]
pub struct SyncLogRepository {
    pub rows: Vec<SyncLogRow>,
}

impl SyncLogRepository {
    pub fn new(rows: Vec<SyncLogRow>) -> (r: SyncLogRepository)
        ensures
            r.rows == rows,
    {
        SyncLogRepository { rows }
    }

    /// Whether a run passes a filter that may be absent.
    fn passes(filter: &Option<SyncLogFilter>, row: &SyncLogRow) -> (r: bool)
        ensures
            r == (*filter matches Some(f) ==> f.admits(row@)),
    {
        match filter {
            Some(f) => f.matches(row),
            None => true,
        }
    }

    /// How many runs a filter lets through, and `i64::MAX` where that
    /// number is above it.
    pub fn count(&self, filter: Option<SyncLogFilter>) -> (r: i64)
        ensures
            r == ({
                let admitted = admitted_runs(views(self.rows@), filter, self.rows@.len());
                if admitted.len() <= i64::MAX {
                    admitted.len() as int
                } else {
                    i64::MAX as int
                }
            }),
    {
        let mut n: usize = 0;
        let mut i: usize = 0;
        while i < self.rows.len()
            invariant
                i <= self.rows.len(),
                n <= i,
                n == admitted_runs(views(self.rows@), filter, i as nat).len(),
            decreases self.rows.len() - i,
        {
            if Self::passes(&filter, &self.rows[i]) {
                n += 1;
            }
            i += 1;
        }
        if n as u64 > 9223372036854775807u64 {
            9223372036854775807
        } else {
            n as i64
        }
    }

    /// The first run that a filter lets through, the runs taken by their
    /// start.
    pub fn query_one(&self, filter: SyncLogFilter) -> (r: Option<SyncLog>)
        ensures
            ({
                let found = query_result(
                    views(self.rows@),
                    Pagination { offset: 0, limit: 1 },
                    Some(filter),
                    None,
                );
                match r {
                    Some(run) => found.len() == 1 && found[0] == run@,
                    None => found.len() == 0,
                }
            }),
    {
        let mut found = self.query(Pagination::one(), Some(filter), None);
        proof {
            let admitted = admitted_runs(views(self.rows@), Some(filter), self.rows@.len());
            lemma_sorted_runs(
                admitted,
                SyncLogSortField::StartedDatetime,
                false,
                admitted.len(),
            );
        }
        found.pop()
    }

    /// The runs that a filter lets through, by their start, and of these
    /// the first [`DEFAULT_LIMIT`].
    pub fn query_by_filter(&self, filter: SyncLogFilter) -> (r: Vec<SyncLog>)
        ensures
            views(r@) == query_result(
                views(self.rows@),
                Pagination { offset: 0, limit: DEFAULT_LIMIT },
                Some(filter),
                None,
            ),
    {
        self.query(Pagination::new(), Some(filter), None)
    }

    /// The runs that the filter lets through, sorted as asked for, and of
    /// these the part that the pagination asks for.
    ///
    /// Without a sort the runs come by their start, the earliest first. A
    /// run that has not ended sorts as if it had ended before all others.
    /// Runs of the same moment come in the order in which the log holds
    /// them.
    pub fn query(
        &self,
        pagination: Pagination,
        filter: Option<SyncLogFilter>,
        sort: Option<SyncLogSort>,
    ) -> (r: Vec<SyncLog>)
        ensures
            views(r@) == query_result(views(self.rows@), pagination, filter, sort),
    {
        let (field, desc) = match sort {
            Some(sort) => (
                sort.key,
                match sort.desc {
                    Some(desc) => desc,
                    None => false,
                },
            ),
            None => (SyncLogSortField::StartedDatetime, false),
        };
        let ghost all = views(self.rows@);
        let mut sorted: Vec<SyncLogRow> = Vec::new();
        let mut i: usize = 0;
        assert(views(sorted@) =~= Seq::empty());
        while i < self.rows.len()
            invariant
                i <= self.rows.len(),
                all == views(self.rows@),
                sorted@.len() == admitted_runs(all, filter, i as nat).len(),
                sorted@.len() <= i,
                views(sorted@) == sorted_runs(
                    admitted_runs(all, filter, i as nat),
                    field,
                    desc,
                    admitted_runs(all, filter, i as nat).len(),
                ),
            decreases self.rows.len() - i,
        {
            let row = &self.rows[i];
            if Self::passes(&filter, row) {
                let ghost before = admitted_runs(all, filter, i as nat);
                let key = field.key(row);
                let mut place: usize = 0;
                while place < sorted.len() && !Self::key_stands_before(
                    key,
                    field.key(&sorted[place]),
                    desc,
                )
                    invariant
                        place <= sorted.len(),
                        key == sort_key(row@, field),
                        place_from(views(sorted@), key, field, desc, 0) == place_from(
                            views(sorted@),
                            key,
                            field,
                            desc,
                            place as int,
                        ),
                    decreases sorted.len() - place,
                {
                    place += 1;
                }
                let copy = SyncLogRow {
                    id: row.id.clone(),
                    started_datetime: row.started_datetime,
                    done_datetime: row.done_datetime,
                    prepare_initial_done_datetime: row.prepare_initial_done_datetime,
                };
                proof {
                    let after = before.push(row@);
                    lemma_sorted_runs_prefix(after, before, field, desc, before.len());
                    assert(views(sorted@.insert(place as int, copy)) =~= views(sorted@).insert(
                        place as int,
                        row@,
                    ));
                }
                sorted.insert(place, copy);
            }
            i += 1;
        }
        let ghost admitted = admitted_runs(all, filter, self.rows@.len());
        let total = sorted.len();
        let start: usize = if pagination.offset as u64 <= total as u64 {
            pagination.offset as usize
        } else {
            total
        };
        let end: usize = if pagination.offset as u64 + pagination.limit as u64 <= total as u64 {
            (pagination.offset as u64 + pagination.limit as u64) as usize
        } else {
            total
        };
        let mut result: Vec<SyncLog> = Vec::new();
        let mut k: usize = start;
        assert(views(result@) =~= views(sorted@).subrange(start as int, start as int));
        while k < end
            invariant
                start <= k <= end <= sorted.len(),
                views(result@) == views(sorted@).subrange(start as int, k as int),
            decreases end - k,
        {
            let row = &sorted[k];
            let entry = to_domain(
                SyncLogRow {
                    id: row.id.clone(),
                    started_datetime: row.started_datetime,
                    done_datetime: row.done_datetime,
                    prepare_initial_done_datetime: row.prepare_initial_done_datetime,
                },
            );
            proof {
                lemma_views_push(result@, entry);
                assert(views(sorted@).subrange(start as int, k + 1) =~= views(sorted@).subrange(
                    start as int,
                    k as int,
                ).push(row@));
            }
            result.push(entry);
            k += 1;
        }
        result
    }

    /// Whether a run with the moment `a` must stand before one with the
    /// moment `b`.
    fn key_stands_before(a: Option<i64>, b: Option<i64>, desc: bool) -> (r: bool)
        ensures
            r == stands_before(a, b, desc),
    {
        match (a, b) {
            (None, None) => false,
            (None, Some(_)) => !desc,
            (Some(_), None) => desc,
            (Some(x), Some(y)) => if desc {
                x > y
            } else {
                x < y
            },
        }
    }
}

} // verus!
