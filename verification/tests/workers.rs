use bot_core::db::DB;
use bot_core::error::CoreError;
use bot_core::models::{Worker, WorkerStatus};
use bot_core::query::{SortOrder, WorkerQuery};
use bot_core::services::worker::{CreateWorkerParams, WorkerService};

const NOW: i64 = 1_700_000_000_000;
const HOUR: i64 = 3_600_000;

/// A stand-in for the store's worker collection.
struct Pool {
    workers: Vec<Worker>,
}

impl Pool {
    fn count_named(&self, name: &str) -> i64 {
        self.workers.iter().filter(|w| w.name == name).count() as i64
    }

    fn insert(&mut self, worker: Worker) -> [u8; 12] {
        let id = [self.workers.len() as u8 + 1; 12];
        self.workers.push(Worker { id: Some(id), ..worker });
        id
    }

    fn find_one(&self, id: [u8; 12]) -> Option<Worker> {
        self.workers.iter().find(|w| w.id == Some(id)).cloned()
    }

    fn find(&self, query: Option<WorkerQuery>) -> Vec<Worker> {
        match query {
            Some(query) => query.select(&self.workers),
            None => Vec::new(),
        }
    }
}

fn service() -> WorkerService {
    WorkerService::new(DB::new("mongodb://localhost/demo").unwrap())
}

fn params(name: &str, proxy: Option<&str>) -> CreateWorkerParams {
    CreateWorkerParams {
        name: name.to_string(),
        source: "https://httpbin.org/ip".to_string(),
        proxy: proxy.map(|p| p.to_string()),
    }
}

fn create(pool: &mut Pool, worker: CreateWorkerParams, now: i64) -> Result<Worker, CoreError> {
    let service = service();
    let existing = pool.count_named(&worker.name);
    let made = service.create_at(worker, existing, now)?;
    let id = pool.insert(made);
    service.inserted(Some(id))?;
    service.created(pool.find_one(id))
}

fn worker(name: &str, status: WorkerStatus, last_work_at: Option<i64>) -> Worker {
    Worker {
        id: None,
        name: name.to_string(),
        source: "s".to_string(),
        status,
        proxy: None,
        last_work_at,
        proxy_checked_at: None,
        created_at: NOW - 10 * HOUR,
    }
}

fn names(workers: &[Worker]) -> Vec<&str> {
    workers.iter().map(|w| w.name.as_str()).collect()
}

#[test]
fn worker_status_is_kept_under_its_name() {
    assert_eq!(WorkerStatus::Started.to_string(), "STARTED");
    assert_eq!(WorkerStatus::Stopped.to_string(), "STOPPED");
    assert_eq!(WorkerStatus::ProxyError.to_string(), "PROXY_ERROR");
}

#[test]
fn new_worker_is_stopped_and_never_ran() {
    let w = Worker::new_at("w1".to_string(), "src".to_string(), Some("p:1".to_string()), 42);
    assert_eq!(
        w,
        Worker {
            id: None,
            name: "w1".to_string(),
            source: "src".to_string(),
            status: WorkerStatus::Stopped,
            proxy: Some("p:1".to_string()),
            last_work_at: None,
            proxy_checked_at: None,
            created_at: 42,
        }
    );
    assert_eq!(w.clone(), w);
}

#[test]
fn new_worker_is_created_at_the_time_of_the_clock() {
    let before = chrono::Utc::now().timestamp_millis();
    let w = Worker::new("w1".to_string(), "src".to_string(), None);
    let after = chrono::Utc::now().timestamp_millis();
    assert!(before <= w.created_at && w.created_at <= after);
    assert!(w.created_at > 1_600_000_000_000);
    assert_eq!(w, Worker::new_at("w1".to_string(), "src".to_string(), None, w.created_at));
}

#[test]
fn create_stores_the_worker_under_an_identifier() {
    let mut pool = Pool { workers: Vec::new() };
    let stored = create(&mut pool, params("w1", Some("10.0.0.1:8080")), NOW).unwrap();
    assert_eq!(stored.id, Some([1; 12]));
    assert_eq!(stored.name, "w1");
    assert_eq!(stored.source, "https://httpbin.org/ip");
    assert_eq!(stored.status, WorkerStatus::Stopped);
    assert_eq!(stored.proxy, Some("10.0.0.1:8080".to_string()));
    assert_eq!(stored.last_work_at, None);
    assert_eq!(stored.proxy_checked_at, None);
    assert_eq!(stored.created_at, NOW);
}

#[test]
fn second_worker_of_a_name_is_refused() {
    let mut pool = Pool { workers: Vec::new() };
    let first = create(&mut pool, params("w1", None), NOW).unwrap();
    let again = create(&mut pool, params("w1", Some("other")), NOW + 5);
    assert!(matches!(again, Err(CoreError::WorkerNameExists)));
    assert_eq!(pool.workers, vec![first]);

    let other = create(&mut pool, params("w2", None), NOW + 9).unwrap();
    assert_eq!(other.name, "w2");
    assert_eq!(pool.workers.len(), 2);
}

#[test]
fn create_reads_the_clock_only_for_a_free_name() {
    let service = service();
    assert!(matches!(service.create(params("w1", None), 1), Err(CoreError::WorkerNameExists)));
    assert!(matches!(service.create(params("w1", None), 7), Err(CoreError::WorkerNameExists)));
    let before = chrono::Utc::now().timestamp_millis();
    let made = service.create(params("w1", None), 0).unwrap();
    let after = chrono::Utc::now().timestamp_millis();
    assert!(before <= made.created_at && made.created_at <= after);
    assert_eq!(made.id, None);
    assert_eq!(made.status, WorkerStatus::Stopped);
}

#[test]
fn creation_without_identifier_or_record_is_an_error() {
    let service = service();
    assert!(matches!(service.inserted(None), Err(CoreError::Error)));
    assert!(matches!(service.created(None), Err(CoreError::Error)));
    let w = worker("w", WorkerStatus::Stopped, None);
    assert_eq!(service.created(Some(w.clone())).unwrap(), w);
}

#[test]
fn never_run_worker_comes_before_one_that_ran() {
    let a = worker("A", WorkerStatus::Started, None);
    let b = worker("B", WorkerStatus::Started, Some(NOW - HOUR));
    let query = service().find_work_at(NOW, 600, 10);
    let pool = Pool { workers: vec![b.clone(), a.clone()] };
    assert_eq!(pool.find(query), vec![a.clone(), b.clone()]);
    let pool = Pool { workers: vec![a.clone(), b.clone()] };
    assert_eq!(pool.find(query), vec![a, b]);
}

#[test]
fn worker_is_due_only_after_the_whole_interval() {
    let at_boundary = worker("boundary", WorkerStatus::Started, Some(NOW - 600_000));
    let one_second_more = worker("over", WorkerStatus::Started, Some(NOW - 601_000));
    let one_milli_more = worker("just", WorkerStatus::Started, Some(NOW - 600_001));
    let recent = worker("recent", WorkerStatus::Started, Some(NOW - 1));
    let query = service().find_work_at(NOW, 600, 10).unwrap();
    assert_eq!(query.due_before, Some(NOW - 600_000));
    assert!(!query.accepts(&at_boundary));
    assert!(query.accepts(&one_second_more));
    assert!(query.accepts(&one_milli_more));
    assert!(!query.accepts(&recent));
    let pool = vec![at_boundary, one_milli_more, recent, one_second_more];
    assert_eq!(names(&query.select(&pool)), vec!["over", "just"]);
}

#[test]
fn stopped_and_failed_workers_are_never_due() {
    let pool = vec![
        worker("stopped-never", WorkerStatus::Stopped, None),
        worker("failed-never", WorkerStatus::ProxyError, None),
        worker("stopped-old", WorkerStatus::Stopped, Some(0)),
        worker("failed-old", WorkerStatus::ProxyError, Some(i64::MIN)),
        worker("started", WorkerStatus::Started, Some(0)),
    ];
    let query = service().find_work_at(NOW, 600, 10).unwrap();
    assert_eq!(names(&query.select(&pool)), vec!["started"]);
    let none_started = &pool[..4];
    assert!(query.select(&none_started.to_vec()).is_empty());
}

#[test]
fn limit_keeps_the_most_overdue() {
    let pool = vec![
        worker("w3", WorkerStatus::Started, Some(NOW - 3 * HOUR)),
        worker("w1", WorkerStatus::Started, Some(NOW - HOUR)),
        worker("w5", WorkerStatus::Started, Some(NOW - 5 * HOUR)),
        worker("w2", WorkerStatus::Started, Some(NOW - 2 * HOUR)),
        worker("w4", WorkerStatus::Started, Some(NOW - 4 * HOUR)),
    ];
    let service = service();
    let two = service.find_work_at(NOW, 600, 2).unwrap().select(&pool);
    assert_eq!(names(&two), vec!["w5", "w4"]);
    let all = service.find_work_at(NOW, 600, 5).unwrap().select(&pool);
    assert_eq!(names(&all), vec!["w5", "w4", "w3", "w2", "w1"]);
    let more = service.find_work_at(NOW, 600, 50).unwrap().select(&pool);
    assert_eq!(more, all);
}

#[test]
fn limit_counts_never_run_workers_first() {
    let pool = vec![
        worker("old", WorkerStatus::Started, Some(NOW - 9 * HOUR)),
        worker("never-1", WorkerStatus::Started, None),
        worker("older", WorkerStatus::Started, Some(NOW - 10 * HOUR)),
        worker("never-2", WorkerStatus::Started, None),
    ];
    let picked = service().find_work_at(NOW, 600, 3).unwrap().select(&pool);
    assert_eq!(names(&picked), vec!["never-1", "never-2", "older"]);
}

#[test]
fn no_worker_is_asked_for_where_the_limit_allows_none() {
    let service = service();
    assert_eq!(service.find_work_at(NOW, 600, 0), None);
    assert_eq!(service.find_work_at(NOW, 600, -3), None);
    assert_eq!(service.find_work(600, 0), None);
    assert_eq!(service.find(None, None, 0), None);
    assert_eq!(service.find(Some(WorkerStatus::Started), Some(true), i64::MIN), None);
}

#[test]
fn select_with_a_limit_that_allows_none_is_empty() {
    let pool = vec![worker("a", WorkerStatus::Started, None)];
    let query = WorkerQuery {
        status: None,
        has_proxy: None,
        due_before: None,
        order: SortOrder::NewestFirst,
        limit: 0,
    };
    assert!(query.select(&pool).is_empty());
    assert!(WorkerQuery { limit: -1, ..query }.select(&pool).is_empty());
    assert_eq!(WorkerQuery { limit: i64::MAX, ..query }.select(&pool), pool);
}

#[test]
fn find_work_reads_the_clock() {
    let before = chrono::Utc::now().timestamp_millis();
    let query = service().find_work(10, 15).unwrap();
    let after = chrono::Utc::now().timestamp_millis();
    let due = query.due_before.unwrap();
    assert!(before - 10_000 <= due && due <= after - 10_000);
    assert_eq!(query.status, Some(WorkerStatus::Started));
    assert_eq!(query.has_proxy, None);
    assert_eq!(query.order, SortOrder::MostOverdueFirst);
    assert_eq!(query.limit, 15);
}

#[test]
fn due_instant_stays_within_what_a_document_carries() {
    let service = service();
    let far_back = service.find_work_at(0, i64::MAX, 1).unwrap();
    assert_eq!(far_back.due_before, Some(-8_000_000_000_000_000));
    let far_ahead = service.find_work_at(0, i64::MIN, 1).unwrap();
    assert_eq!(far_ahead.due_before, Some(8_000_000_000_000_000));
    let exact = service.find_work_at(i64::MAX, 9_223_372_036_854_775, 1).unwrap();
    assert_eq!(exact.due_before, Some(807));
    let negative_interval = service.find_work_at(1_000, -2, 1).unwrap();
    assert_eq!(negative_interval.due_before, Some(3_000));

    let ran = worker("ran", WorkerStatus::Started, Some(7_999_999_999_999_999));
    assert!(far_ahead.accepts(&ran));
    let ran_early = worker("early", WorkerStatus::Started, Some(-8_000_000_000_000_000));
    assert!(!far_back.accepts(&ran_early));
    assert!(far_back.accepts(&worker("never", WorkerStatus::Started, None)));
}

#[test]
fn find_asks_for_the_newest_first() {
    let query = service().find(Some(WorkerStatus::ProxyError), Some(true), 300).unwrap();
    assert_eq!(
        query,
        WorkerQuery {
            status: Some(WorkerStatus::ProxyError),
            has_proxy: Some(true),
            due_before: None,
            order: SortOrder::NewestFirst,
            limit: 300,
        }
    );
    let mut old = worker("old", WorkerStatus::Started, None);
    old.created_at = 1;
    let mut new = worker("new", WorkerStatus::Stopped, Some(5));
    new.created_at = 3;
    let mut mid = worker("mid", WorkerStatus::ProxyError, None);
    mid.created_at = 2;
    let pool = Pool { workers: vec![old, new, mid] };
    let service = service();
    assert_eq!(names(&pool.find(service.find(None, None, 10))), vec!["new", "mid", "old"]);
    assert_eq!(names(&pool.find(service.find(None, None, 2))), vec!["new", "mid"]);
    assert_eq!(
        names(&pool.find(service.find(Some(WorkerStatus::Started), None, 10))),
        vec!["old"]
    );
}

#[test]
fn workers_that_the_order_does_not_tell_apart_keep_the_order_of_the_pool() {
    let mut pool = Vec::new();
    for name in ["x", "y", "z"] {
        pool.push(worker(name, WorkerStatus::Started, Some(5)));
    }
    pool.push(worker("first", WorkerStatus::Started, Some(4)));
    let query = service().find_work_at(NOW, 1, 10).unwrap();
    assert_eq!(names(&query.select(&pool)), vec!["first", "x", "y", "z"]);
    let newest = service().find(None, None, 10).unwrap();
    assert_eq!(names(&newest.select(&pool)), vec!["x", "y", "z", "first"]);
}

#[test]
fn worker_without_proxy_is_found_only_where_none_is_asked_for() {
    let mut pool = Pool { workers: Vec::new() };
    let bare = create(&mut pool, params("bare", None), NOW).unwrap();
    let proxied = create(&mut pool, params("proxied", Some("10.0.0.1:8080")), NOW + 1).unwrap();
    let service = service();
    assert_eq!(pool.find(service.find(None, Some(false), 10)), vec![bare.clone()]);
    assert_eq!(pool.find(service.find(None, Some(true), 10)), vec![proxied.clone()]);
    assert_eq!(pool.find(service.find(None, None, 10)), vec![proxied, bare]);
}

#[test]
fn comes_before_follows_the_order_of_the_query() {
    let never = worker("never", WorkerStatus::Started, None);
    let early = worker("early", WorkerStatus::Started, Some(1));
    let late = worker("late", WorkerStatus::Started, Some(2));
    let due = service().find_work_at(NOW, 0, 1).unwrap();
    assert!(due.comes_before(&never, &early));
    assert!(due.comes_before(&early, &late));
    assert!(!due.comes_before(&late, &early));
    assert!(!due.comes_before(&early, &never));
    assert!(!due.comes_before(&never, &never));
    assert!(!due.comes_before(&early, &early));

    let newest = service().find(None, None, 1).unwrap();
    let mut young = worker("young", WorkerStatus::Started, None);
    young.created_at += 1;
    assert!(newest.comes_before(&young, &never));
    assert!(!newest.comes_before(&never, &young));
    assert!(!newest.comes_before(&never, &early));
}
