//! The registry of workers: creating them under unique names, looking them
//! up, and selecting those that are due to run.

use vstd::prelude::*;
use mongodb::bson::Document;
use crate::clock::now_millis;
use crate::db::DB;
use crate::document::{doc_fields, doc_new, put_object_id, put_text, Fields, Value};
use crate::error::CoreError;
use crate::models::{Worker, WorkerStatus, TIME_MAX, TIME_MIN};
use crate::query::{SortOrder, WorkerQuery};

verus! {

/// What a caller gives to have a worker created.
#[derive(Debug, PartialEq, Eq)]
pub struct CreateWorkerParams {
    pub name: String,
    pub source: String,
    pub proxy: Option<String>,
}

/// Whether `w` is due to run at the instant `now`, in milliseconds since the
/// Unix epoch, where `work_interval` seconds must pass between two runs: it
/// is started, and it never ran or its last run ended more than the interval ago.
pub open spec fn eligible(w: Worker, now: i64, work_interval: i64) -> bool {
    &&& w.status == WorkerStatus::Started
    &&& w.last_work_at is None || w.last_work_at->0 < now - work_interval * 1000
}

/// The instant before which a last run must have ended for the worker to be
/// due: `work_interval` seconds before `now`, or the nearest instant that a
/// document can carry.
pub open spec fn due_instant(now: i64, work_interval: i64) -> i64 {
    let exact = now - work_interval * 1000;
    if exact < TIME_MIN {
        TIME_MIN
    } else if exact > TIME_MAX {
        TIME_MAX
    } else {
        exact as i64
    }
}

/// The number of workers of `pool` that are named `name`: what the store
/// counts for the filter of that name.
pub open spec fn named(pool: Seq<Worker>, name: Seq<char>) -> nat {
    pool.filter(|w: Worker| w.name@ == name).len()
}

/// The pool after the first step of a creation came to `made` and the store
/// did what follows from it: the new worker stored under the identifier `id`,
/// or nothing where the creation failed.
pub open spec fn pool_after(pool: Seq<Worker>, made: Result<Worker, CoreError>, id: [u8; 12]) -> Seq<
    Worker,
> {
    match made {
        Ok(worker) => pool.push(Worker { id: Some(id), ..worker }),
        Err(_) => pool,
    }
}

/// The registry of workers.
#[derive(Debug)]
pub struct WorkerService {
    /// Where the store is.
    pub db: DB,
}

impl WorkerService {
    /// The fields of the filter that finds the workers named `name`.
    pub open spec fn name_fields(name: Seq<char>) -> Fields {
        seq![("name"@, Value::Text(name))]
    }

    /// The fields of the filter that finds the worker with the identifier `id`.
    pub open spec fn id_fields(id: [u8; 12]) -> Fields {
        seq![("_id"@, Value::ObjectId(id@))]
    }

    /// What `create` decides at the instant `now`, where the store holds
    /// `existing` workers of the wanted name.
    pub open spec fn creation(worker: CreateWorkerParams, existing: i64, now: i64) -> Result<
        Worker,
        CoreError,
    > {
        if existing > 0 {
            Err(CoreError::WorkerNameExists)
        } else {
            Ok(Worker::spec_new_at(worker.name, worker.source, worker.proxy, now))
        }
    }

    /// The query that `find` makes.
    pub open spec fn lookup(status: Option<WorkerStatus>, has_proxy: Option<bool>, limit: i64)
        -> Option<WorkerQuery> {
        if limit <= 0 {
            None
        } else {
            Some(
                WorkerQuery {
                    status,
                    has_proxy,
                    due_before: None,
                    order: SortOrder::NewestFirst,
                    limit,
                },
            )
        }
    }

    /// The query that `find_work` makes at the instant `now`.
    pub open spec fn due_query(now: i64, work_interval: i64, limit: i64) -> Option<WorkerQuery> {
        if limit <= 0 {
            None
        } else {
            Some(
                WorkerQuery {
                    status: Some(WorkerStatus::Started),
                    has_proxy: None,
                    due_before: Some(due_instant(now, work_interval)),
                    order: SortOrder::MostOverdueFirst,
                    limit,
                },
            )
        }
    }

    pub fn new(db: DB) -> (service: WorkerService)
        ensures
            service.db == db,
    {
        WorkerService { db }
    }

    /// The filter document that finds the workers named `name`. The store is
    /// asked how many there are before a worker of that name is created.
    pub fn name_filter(name: &str) -> (d: Document)
        ensures
            doc_fields(d) == Self::name_fields(name@),
    {
        let mut d = doc_new();
        put_text(&mut d, "name", name);
        assert(doc_fields(d) =~= Self::name_fields(name@));
        d
    }

    /// The filter document that finds the worker with the identifier `id`.
    pub fn id_filter(id: [u8; 12]) -> (d: Document)
        ensures
            doc_fields(d) == Self::id_fields(id),
    {
        let mut d = doc_new();
        put_object_id(&mut d, "_id", id);
        assert(doc_fields(d) =~= Self::id_fields(id));
        d
    }

    /// First step of a creation, at the instant `now`. `existing` is the
    /// number of workers of the wanted name that the store holds. Fails with
    /// `WorkerNameExists` where there is one; else returns the worker to insert.
    pub fn create_at(&self, worker: CreateWorkerParams, existing: i64, now: i64) -> (made: Result<
        Worker,
        CoreError,
    >)
        ensures
            made == Self::creation(worker, existing, now),
    {
        if existing > 0 {
            Err(CoreError::WorkerNameExists)
        } else {
            Ok(Worker::new_at(worker.name, worker.source, worker.proxy, now))
        }
    }

    /// First step of a creation. `existing` is the number of workers of the
    /// wanted name that the store holds. Fails with `WorkerNameExists` where
    /// there is one; else returns the worker to insert, created at the instant
    /// that the clock shows.
    pub fn create(&self, worker: CreateWorkerParams, existing: i64) -> (made: Result<
        Worker,
        CoreError,
    >)
        ensures
            exists|now: i64| made == Self::creation(worker, existing, now),
    {
        if existing > 0 {
            assert(Self::creation(worker, existing, 0) == Err::<Worker, CoreError>(
                CoreError::WorkerNameExists,
            ));
            Err(CoreError::WorkerNameExists)
        } else {
            let now = now_millis();
            self.create_at(worker, existing, now)
        }
    }

    /// Second step of a creation. `id` is the identifier that the store
    /// assigned to the inserted worker, absent where it reported none of that
    /// kind. Returns the filter that finds the worker again, and fails with
    /// `Error` where there is no identifier.
    pub fn inserted(&self, id: Option<[u8; 12]>) -> (filter: Result<Document, CoreError>)
        ensures
            match id {
                Some(bytes) => filter is Ok && doc_fields(filter->Ok_0) == Self::id_fields(bytes),
                None => filter == Err::<Document, CoreError>(CoreError::Error),
            },
    {
        match id {
            Some(bytes) => Ok(Self::id_filter(bytes)),
            None => Err(CoreError::Error),
        }
    }

    /// Last step of a creation. `found` is the inserted worker as the store
    /// holds it. Fails with `Error` where the store does not hold it.
    pub fn created(&self, found: Option<Worker>) -> (stored: Result<Worker, CoreError>)
        ensures
            match found {
                Some(worker) => stored == Ok::<Worker, CoreError>(worker),
                None => stored == Err::<Worker, CoreError>(CoreError::Error),
            },
    {
        match found {
            Some(worker) => Ok(worker),
            None => Err(CoreError::Error),
        }
    }

    /// The query for the workers of the given status and with or without a
    /// proxy, latest creation first, `limit` at most. Where `limit` allows no
    /// worker there is nothing to ask: the answer is empty.
    pub fn find(&self, status: Option<WorkerStatus>, has_proxy: Option<bool>, limit: i64) -> (query:
        Option<WorkerQuery>)
        ensures
            query == Self::lookup(status, has_proxy, limit),
            query is Some ==> query->0.wf(),
    {
        if limit <= 0 {
            None
        } else {
            Some(
                WorkerQuery {
                    status,
                    has_proxy,
                    due_before: None,
                    order: SortOrder::NewestFirst,
                    limit,
                },
            )
        }
    }

    /// The query for the workers that are due to run at the instant `now`,
    /// the most overdue first, `limit` at most. Where `limit` allows no
    /// worker there is nothing to ask: the answer is empty.
    ///
    /// The query wants exactly the eligible workers among those whose
    /// instants a record may hold.
    pub fn find_work_at(&self, now: i64, work_interval: i64, limit: i64) -> (query: Option<
        WorkerQuery,
    >)
        ensures
            query == Self::due_query(now, work_interval, limit),
            query is Some ==> query->0.wf(),
            query is Some ==> forall|w: Worker|
                w.valid() ==> (#[trigger] query->0.matches(w) <==> eligible(w, now, work_interval)),
    {
        if limit <= 0 {
            None
        } else {
            let exact: i128 = now as i128 - (work_interval as i128) * 1000;
            let due: i64 = if exact < TIME_MIN as i128 {
                TIME_MIN
            } else if exact > TIME_MAX as i128 {
                TIME_MAX
            } else {
                exact as i64
            };
            Some(
                WorkerQuery {
                    status: Some(WorkerStatus::Started),
                    has_proxy: None,
                    due_before: Some(due),
                    order: SortOrder::MostOverdueFirst,
                    limit,
                },
            )
        }
    }

    /// The query for the workers that are due to run now, by the clock, the
    /// most overdue first, `limit` at most. Where `limit` allows no worker
    /// there is nothing to ask: the answer is empty.
    pub fn find_work(&self, work_interval: i64, limit: i64) -> (query: Option<WorkerQuery>)
        ensures
            exists|now: i64| query == Self::due_query(now, work_interval, limit),
            query is Some ==> query->0.wf(),
    {
        let now = now_millis();
        self.find_work_at(now, work_interval, limit)
    }

    /// Names are unique. Once a worker was created under a name, a further
    /// creation under that name fails with `WorkerNameExists`, and the pool,
    /// with the first worker in it, stays as it was.
    pub proof fn law_duplicate_name_rejected(
        pool: Seq<Worker>,
        first: CreateWorkerParams,
        second: CreateWorkerParams,
        first_existing: i64,
        second_existing: i64,
        first_now: i64,
        second_now: i64,
        first_id: [u8; 12],
        second_id: [u8; 12],
    )
        requires
            second.name@ == first.name@,
            first_existing == named(pool, first.name@),
            Self::creation(first, first_existing, first_now) is Ok,
            second_existing == named(
                pool_after(pool, Self::creation(first, first_existing, first_now), first_id),
                second.name@,
            ),
        ensures
            Self::creation(second, second_existing, second_now) == Err::<Worker, CoreError>(
                CoreError::WorkerNameExists,
            ),
            pool_after(
                pool_after(pool, Self::creation(first, first_existing, first_now), first_id),
                Self::creation(second, second_existing, second_now),
                second_id,
            ) == pool_after(pool, Self::creation(first, first_existing, first_now), first_id),
    {
        reveal(Seq::filter);
        let grown = pool_after(pool, Self::creation(first, first_existing, first_now), first_id);
        assert(grown.drop_last() =~= pool);
        assert(grown.last().name@ == second.name@);
    }

    /// A worker that never ran is due before every worker that ran: in an
    /// answer to the query for due workers it never stands behind one that
    /// ran, and among those that ran the earlier last run comes first.
    pub proof fn law_never_run_first(now: i64, work_interval: i64, limit: i64, pool: Seq<Worker>)
        requires
            limit > 0,
        ensures
            ({
                let answer = Self::due_query(now, work_interval, limit)->0.answer(pool);
                forall|i: int, j: int|
                    0 <= i < j < answer.len() ==> match (#[trigger] answer[j]).last_work_at {
                        None => (#[trigger] answer[i]).last_work_at is None,
                        Some(later) => answer[i].last_work_at is None || answer[i].last_work_at->0
                            <= later,
                    }
            }),
    {
        let query = Self::due_query(now, work_interval, limit)->0;
        query.law_answer_ordered(pool);
        let answer = query.answer(pool);
        assert forall|i: int, j: int| 0 <= i < j < answer.len() implies match (
        #[trigger] answer[j]).last_work_at {
            None => (#[trigger] answer[i]).last_work_at is None,
            Some(later) => answer[i].last_work_at is None || answer[i].last_work_at->0 <= later,
        } by {
            assert(!query.before(answer[j], answer[i]));
        }
    }

    /// The interval must have passed in full. A started worker whose last run
    /// ended at an instant that a record may hold is wanted by the query for
    /// due workers if and only if that instant lies before `now` less the
    /// interval: at that very instant the worker is not due yet.
    pub proof fn law_interval_boundary(w: Worker, now: i64, work_interval: i64, limit: i64)
        requires
            limit > 0,
            w.valid(),
            w.status == WorkerStatus::Started,
            w.last_work_at is Some,
        ensures
            Self::due_query(now, work_interval, limit)->0.matches(w) <==> w.last_work_at->0 < now
                - work_interval * 1000,
            eligible(w, now, work_interval) <==> w.last_work_at->0 < now - work_interval * 1000,
    {
    }

    /// The query for due workers wants exactly the eligible workers, among
    /// those whose instants a record may hold.
    pub proof fn law_due_means_eligible(w: Worker, now: i64, work_interval: i64, limit: i64)
        requires
            limit > 0,
            w.valid(),
        ensures
            Self::due_query(now, work_interval, limit)->0.matches(w) <==> eligible(
                w,
                now,
                work_interval,
            ),
    {
    }

    /// Only started workers are due: a worker that is stopped or whose proxy
    /// failed is not wanted by the query for due workers, whenever it last
    /// ran, and no answer to that query holds one.
    pub proof fn law_only_started_due(now: i64, work_interval: i64, limit: i64, pool: Seq<Worker>)
        requires
            limit > 0,
        ensures
            forall|w: Worker|
                w.status != WorkerStatus::Started ==> !(#[trigger] Self::due_query(
                    now,
                    work_interval,
                    limit,
                )->0.matches(w)),
            forall|i: int|
                0 <= i < Self::due_query(now, work_interval, limit)->0.answer(pool).len() ==> (
                #[trigger] Self::due_query(now, work_interval, limit)->0.answer(pool)[i]).status
                    == WorkerStatus::Started,
    {
        let query = Self::due_query(now, work_interval, limit)->0;
        query.law_answer_wanted(pool);
    }

    /// The filter on the proxy tells workers apart by whether they have one.
    /// A worker without a proxy is wanted where workers without are asked
    /// for, and is returned if the limit leaves room for all that are wanted;
    /// it is never returned where workers with a proxy are asked for.
    pub proof fn law_proxy_filter(w: Worker, limit: i64, pool: Seq<Worker>)
        requires
            limit > 0,
            w.proxy is None,
            pool.contains(w),
        ensures
            Self::lookup(None, Some(false), limit)->0.matches(w),
            !Self::lookup(None, Some(true), limit)->0.matches(w),
            !Self::lookup(None, Some(true), limit)->0.answer(pool).contains(w),
            Self::lookup(None, Some(false), limit)->0.wanted(pool).len() <= limit
                ==> Self::lookup(None, Some(false), limit)->0.answer(pool).contains(w),
    {
        let without = Self::lookup(None, Some(false), limit)->0;
        let with = Self::lookup(None, Some(true), limit)->0;
        without.law_ranked_wanted(pool);
        with.law_answer_wanted(pool);
        if with.answer(pool).contains(w) {
            let k = choose|k: int| 0 <= k < with.answer(pool).len() && with.answer(pool)[k] == w;
            assert(with.matches(with.answer(pool)[k]));
        }
        assert(without.ranked(pool).contains(w));
    }
}

} // verus!
