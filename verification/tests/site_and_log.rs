use sync_translation::repository::invoice::{
    Invoice, InvoiceRow, InvoiceRowStatus, InvoiceRowType, StoreRow,
};
use sync_translation::repository::repository_error::RepositoryError;
use sync_translation::repository::sync_log::{
    to_domain, DatetimeFilter, EqualFilter, SyncLog, SyncLogFilter, SyncLogRow, SyncLogSortField,
};
use sync_translation::sync::site::{
    is_active_record_on_site, ActiveRecordCheck, ActiveRecordCheckError,
};

fn invoice_of_site(site_id: i32) -> Invoice {
    Invoice {
        invoice_row: InvoiceRow {
            id: "invoice_a".to_string(),
            store_id: "store_a".to_string(),
            invoice_type: InvoiceRowType::OutboundShipment,
            status: InvoiceRowStatus::New,
            on_hold: false,
        },
        store_row: StoreRow { id: "store_a".to_string(), site_id },
    }
}

fn check() -> ActiveRecordCheck {
    ActiveRecordCheck::InvoiceLine { invoice_id: "invoice_a".to_string() }
}

fn db_error() -> RepositoryError {
    RepositoryError::DBError { msg: "locked".to_string() }
}

#[test]
fn record_of_this_site_is_active() {
    assert_eq!(is_active_record_on_site(Ok(Some(3)), Ok(Some(invoice_of_site(3))), check()), Ok(true));
    assert_eq!(is_active_record_on_site(Ok(Some(3)), Ok(Some(invoice_of_site(4))), check()), Ok(false));
    assert_eq!(is_active_record_on_site(Ok(Some(-1)), Ok(Some(invoice_of_site(-1))), check()), Ok(true));
}

#[test]
fn site_without_id_cannot_check() {
    assert_eq!(
        is_active_record_on_site(Ok(None), Ok(Some(invoice_of_site(3))), check()),
        Err(ActiveRecordCheckError::SiteIdNotSet)
    );
    assert_eq!(
        is_active_record_on_site(Ok(None), Ok(None), check()),
        Err(ActiveRecordCheckError::SiteIdNotSet)
    );
    assert_eq!(
        is_active_record_on_site(Ok(None), Err(db_error()), check()),
        Err(ActiveRecordCheckError::SiteIdNotSet)
    );
    assert!(ActiveRecordCheckError::SiteIdNotSet.is_fatal());
}

#[test]
fn record_without_parent_is_reported_with_the_check() {
    let error = is_active_record_on_site(Ok(Some(3)), Ok(None), check()).unwrap_err();
    assert_eq!(error, ActiveRecordCheckError::ParentRecordNotFound(check()));
    assert!(!error.is_fatal());
}

#[test]
fn storage_failures_are_passed_on() {
    let error = is_active_record_on_site(Err(db_error()), Ok(None), check()).unwrap_err();
    assert_eq!(error, ActiveRecordCheckError::DatabaseError(db_error()));
    assert!(error.is_fatal());
    assert_eq!(
        is_active_record_on_site(Ok(Some(3)), Err(RepositoryError::NotFound), check()),
        Err(ActiveRecordCheckError::DatabaseError(RepositoryError::NotFound))
    );
}

#[test]
fn run_is_logged_from_start_to_end() {
    let mut row = SyncLogRow::start("run_1".to_string(), 1_000);
    assert_eq!(
        row,
        SyncLogRow {
            id: "run_1".to_string(),
            started_datetime: 1_000,
            done_datetime: None,
            prepare_initial_done_datetime: None,
        }
    );
    assert!(!row.is_done());
    assert!(!row.is_initialised());
    assert_eq!(row.duration(), None);

    row.prepare_initial_done(1_500);
    assert_eq!(row.prepare_initial_done_datetime, Some(1_500));
    assert!(row.is_initialised());
    assert!(!row.is_done());
    row.prepare_initial_done(1_700);
    assert_eq!(row.prepare_initial_done_datetime, Some(1_500));

    row.done(4_250);
    assert!(row.is_done());
    assert_eq!(row.done_datetime, Some(4_250));
    assert_eq!(row.duration(), Some(3_250));
    row.done(9_000);
    assert_eq!(row.done_datetime, Some(4_250));
    assert_eq!(row.started_datetime, 1_000);
    assert_eq!(row.id, "run_1");
    assert_eq!(to_domain(row.clone()), SyncLog { sync_log_row: row });
}

#[test]
fn duration_that_does_not_fit_is_none() {
    let mut row = SyncLogRow::start("run".to_string(), i64::MIN);
    row.done(1);
    assert_eq!(row.duration(), None);
    let mut row = SyncLogRow::start("run".to_string(), 5);
    row.done(3);
    assert_eq!(row.duration(), Some(-2));
}

fn run(id: &str, initial_done: Option<i64>) -> SyncLogRow {
    SyncLogRow {
        id: id.to_string(),
        started_datetime: 10,
        done_datetime: Some(20),
        prepare_initial_done_datetime: initial_done,
    }
}

#[test]
fn filter_by_id_and_moment() {
    assert_eq!(SyncLogFilter::new(), SyncLogFilter::default());
    assert!(SyncLogFilter::new().matches(&run("a", None)));

    let by_id = SyncLogFilter::new().id(EqualFilter::equal_to("a".to_string()));
    assert!(by_id.matches(&run("a", None)));
    assert!(!by_id.matches(&run("b", Some(1))));

    let range = SyncLogFilter::new().prepare_initial_done_datetime(DatetimeFilter::date_range(5, 8));
    assert_eq!(
        range,
        SyncLogFilter {
            id: None,
            prepare_initial_done_datetime: Some(DatetimeFilter {
                equal_to: None,
                before_or_equal_to: Some(8),
                after_or_equal_to: Some(5),
            }),
        }
    );
    let admitted: Vec<bool> = [None, Some(4), Some(5), Some(6), Some(8), Some(9)]
        .iter()
        .map(|moment| range.matches(&run("a", *moment)))
        .collect();
    assert_eq!(admitted, vec![false, false, true, true, true, false]);

    let both = by_id.clone().prepare_initial_done_datetime(DatetimeFilter::equal_to(7));
    assert!(both.matches(&run("a", Some(7))));
    assert!(!both.matches(&run("a", Some(8))));
    assert!(!both.matches(&run("b", Some(7))));
    assert!(!both.matches(&run("a", None)));
}

#[test]
fn moments_are_compared_inclusively() {
    assert!(DatetimeFilter::after_or_equal_to(3).matches(Some(3)));
    assert!(!DatetimeFilter::after_or_equal_to(3).matches(Some(2)));
    assert!(DatetimeFilter::before_or_equal_to(3).matches(Some(3)));
    assert!(!DatetimeFilter::before_or_equal_to(3).matches(Some(4)));
    assert!(!DatetimeFilter::before_or_equal_to(3).matches(None));
    assert!(!DatetimeFilter::default().matches(None));
    assert!(DatetimeFilter::default().matches(Some(0)));
    assert!(EqualFilter { equal_to: None }.matches(&"anything".to_string()));
}

#[test]
fn sort_fields_pick_their_moment() {
    let mut row = run("a", None);
    assert_eq!(SyncLogSortField::StartedDatetime.key(&row), Some(10));
    assert_eq!(SyncLogSortField::DoneDatetime.key(&row), Some(20));
    row.done_datetime = None;
    assert_eq!(SyncLogSortField::DoneDatetime.key(&row), None);
}

use sync_translation::repository::sync_log::{Pagination, Sort, SyncLogRepository, DEFAULT_LIMIT};

fn log_row(id: &str, started: i64, done: Option<i64>, initial: Option<i64>) -> SyncLogRow {
    SyncLogRow {
        id: id.to_string(),
        started_datetime: started,
        done_datetime: done,
        prepare_initial_done_datetime: initial,
    }
}

fn repository() -> SyncLogRepository {
    SyncLogRepository::new(vec![
        log_row("c", 30, Some(35), Some(31)),
        log_row("a", 10, Some(50), None),
        log_row("e", 50, None, Some(55)),
        log_row("b", 20, Some(35), Some(21)),
        log_row("d", 40, None, None),
    ])
}

fn ids(logs: &Vec<SyncLog>) -> Vec<String> {
    logs.iter().map(|log| log.sync_log_row.id.clone()).collect()
}

fn all() -> Pagination {
    Pagination { offset: 0, limit: 1000 }
}

#[test]
fn query_sorts_by_start_unless_told() {
    let repo = repository();
    assert_eq!(ids(&repo.query(all(), None, None)), vec!["a", "b", "c", "d", "e"]);
    let by_start = |desc| Some(Sort { key: SyncLogSortField::StartedDatetime, desc });
    assert_eq!(ids(&repo.query(all(), None, by_start(None))), vec!["a", "b", "c", "d", "e"]);
    assert_eq!(ids(&repo.query(all(), None, by_start(Some(false)))), vec!["a", "b", "c", "d", "e"]);
    assert_eq!(ids(&repo.query(all(), None, by_start(Some(true)))), vec!["e", "d", "c", "b", "a"]);
}

#[test]
fn query_sorts_by_end_with_open_runs_first() {
    let repo = repository();
    let by_end = |desc| Some(Sort { key: SyncLogSortField::DoneDatetime, desc });
    assert_eq!(ids(&repo.query(all(), None, by_end(None))), vec!["e", "d", "c", "b", "a"]);
    assert_eq!(ids(&repo.query(all(), None, by_end(Some(true)))), vec!["a", "c", "b", "e", "d"]);
}

#[test]
fn query_filters_before_it_sorts_and_pages() {
    let repo = repository();
    let filter = SyncLogFilter::new()
        .prepare_initial_done_datetime(DatetimeFilter::after_or_equal_to(21));
    assert_eq!(ids(&repo.query(all(), Some(filter.clone()), None)), vec!["b", "c", "e"]);
    assert_eq!(
        ids(&repo.query(Pagination { offset: 1, limit: 1 }, Some(filter.clone()), None)),
        vec!["c"]
    );
    assert_eq!(
        ids(&repo.query(Pagination { offset: 2, limit: 5 }, Some(filter.clone()), None)),
        vec!["e"]
    );
    assert!(repo.query(Pagination { offset: 3, limit: 5 }, Some(filter.clone()), None).is_empty());
    assert!(repo.query(Pagination { offset: 9, limit: 5 }, Some(filter.clone()), None).is_empty());
    assert!(repo.query(Pagination { offset: 0, limit: 0 }, Some(filter.clone()), None).is_empty());
    assert_eq!(
        ids(&repo.query(
            Pagination { offset: u32::MAX, limit: u32::MAX },
            Some(filter.clone()),
            None
        )),
        Vec::<String>::new()
    );
    assert_eq!(repo.count(Some(filter)), 3);
    assert_eq!(repo.count(None), 5);
    assert_eq!(SyncLogRepository::new(vec![]).count(None), 0);
}

#[test]
fn query_hands_out_whole_rows() {
    let repo = repository();
    let found =
        repo.query(Pagination::one(), Some(SyncLogFilter::new().id(EqualFilter::equal_to("e".to_string()))), None);
    assert_eq!(found, vec![SyncLog { sync_log_row: log_row("e", 50, None, Some(55)) }]);
}

#[test]
fn query_one_and_by_filter() {
    let repo = repository();
    assert_eq!(
        repo.query_one(SyncLogFilter::new()),
        Some(SyncLog { sync_log_row: log_row("a", 10, Some(50), None) })
    );
    let initialised =
        SyncLogFilter::new().prepare_initial_done_datetime(DatetimeFilter::date_range(0, 100));
    assert_eq!(
        repo.query_one(initialised.clone()),
        Some(SyncLog { sync_log_row: log_row("b", 20, Some(35), Some(21)) })
    );
    assert_eq!(repo.query_one(SyncLogFilter::new().id(EqualFilter::equal_to("z".to_string()))), None);
    assert_eq!(ids(&repo.query_by_filter(initialised)), vec!["b", "c", "e"]);

    assert_eq!(Pagination::new(), Pagination { offset: 0, limit: DEFAULT_LIMIT });
    assert_eq!(DEFAULT_LIMIT, 100);
    let many: Vec<SyncLogRow> =
        (0..150).map(|i| log_row(&format!("run_{}", i), 1000 - i, None, None)).collect();
    let found = SyncLogRepository::new(many).query_by_filter(SyncLogFilter::new());
    assert_eq!(found.len(), 100);
    assert_eq!(found[0].sync_log_row.id, "run_149");
    assert_eq!(found[99].sync_log_row.id, "run_50");
}

#[test]
fn runs_of_the_same_moment_keep_their_order() {
    let repo = SyncLogRepository::new(vec![
        log_row("first", 5, None, None),
        log_row("second", 5, None, None),
        log_row("early", 1, None, None),
        log_row("third", 5, None, None),
    ]);
    assert_eq!(ids(&repo.query(all(), None, None)), vec!["early", "first", "second", "third"]);
    let desc = Some(Sort { key: SyncLogSortField::StartedDatetime, desc: Some(true) });
    assert_eq!(ids(&repo.query(all(), None, desc)), vec!["first", "second", "third", "early"]);
}
