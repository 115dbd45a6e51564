//! The records that the store keeps: the bot's configuration and the workers.

use vstd::prelude::*;
use crate::clock::now_millis;

verus! {

/// Earliest instant, in milliseconds since the Unix epoch, that a record may hold.
pub const TIME_MIN: i64 = -8_000_000_000_000_000;

/// Instant, in milliseconds since the Unix epoch, that lies after every
/// instant a record may hold.
pub const TIME_MAX: i64 = 8_000_000_000_000_000;

/// Whether `millis` is an instant that a record may hold.
pub open spec fn valid_instant(millis: i64) -> bool {
    TIME_MIN <= millis < TIME_MAX
}

/// The configuration and state of the bot. The store keeps exactly one.
#[derive(Debug, Clone, Copy, PartialEq, Eq)]
pub struct Bot {
    /// The fixed identity of the record in the store.
    pub id: Option<i32>,
    /// Timeout of one unit of work, in seconds.
    pub timeout: i32,
    /// Least spacing between two checks of a proxy, in seconds.
    pub proxy_check_interval: i32,
    /// Most proxies checked in one cycle.
    pub proxy_check_limit: i32,
    /// Least spacing between two runs of one worker, in seconds.
    pub work_interval: i32,
    /// Most workers selected in one cycle.
    pub work_limit: i32,
    /// Whether the scheduling loop is active.
    pub bot_started: bool,
}

impl Bot {
    /// The record that is created when the store holds none.
    pub open spec fn initial() -> Bot {
        Bot {
            id: Some(1i32),
            timeout: 10,
            proxy_check_interval: 60,
            proxy_check_limit: 10,
            work_interval: 10,
            work_limit: 15,
            bot_started: false,
        }
    }
}

impl Default for Bot {
    fn default() -> (bot: Bot)
        ensures
            bot == Bot::initial(),
    {
        Bot {
            id: Some(1),
            timeout: 10,
            proxy_check_interval: 60,
            proxy_check_limit: 10,
            work_interval: 10,
            work_limit: 15,
            bot_started: false,
        }
    }
}

/// Where a worker stands in its life cycle.
#[derive(Debug, Clone, Copy, PartialEq, Eq, Structural)]
pub enum WorkerStatus {
    Started,
    Stopped,
    ProxyError,
}

impl WorkerStatus {
    /// The name under which the store keeps the status.
    pub open spec fn label(self) -> Seq<char> {
        match self {
            WorkerStatus::Started => "STARTED"@,
            WorkerStatus::Stopped => "STOPPED"@,
            WorkerStatus::ProxyError => "PROXY_ERROR"@,
        }
    }

    /// The name under which the store keeps the status.
    pub fn to_string(&self) -> (text: String)
        ensures
            text@ == self.label(),
    {
        match self {
            WorkerStatus::Started => "STARTED".to_owned(),
            WorkerStatus::Stopped => "STOPPED".to_owned(),
            WorkerStatus::ProxyError => "PROXY_ERROR".to_owned(),
        }
    }
}

/// One target of work, as the store keeps it.
#[derive(Debug, PartialEq, Eq)]
pub struct Worker {
    /// The identifier that the store assigned; absent until the record is stored.
    pub id: Option<[u8; 12]>,
    /// Unique among all workers.
    pub name: String,
    pub source: String,
    pub status: WorkerStatus,
    /// Absent: no proxy is assigned.
    pub proxy: Option<String>,
    /// End of the last run, in milliseconds since the Unix epoch. Absent: never run.
    pub last_work_at: Option<i64>,
    /// Last check of the proxy, in milliseconds since the Unix epoch.
    pub proxy_checked_at: Option<i64>,
    /// Creation, in milliseconds since the Unix epoch.
    pub created_at: i64,
}

impl Worker {
    /// The worker that is made at the instant `created_at`, before it is
    /// stored: stopped, never run, its proxy never checked.
    pub open spec fn spec_new_at(
        name: String,
        source: String,
        proxy: Option<String>,
        created_at: i64,
    ) -> Worker {
        Worker {
            id: None,
            name,
            source,
            status: WorkerStatus::Stopped,
            proxy,
            last_work_at: None,
            proxy_checked_at: None,
            created_at,
        }
    }

    /// Whether every instant in the record is one that a record may hold.
    pub open spec fn valid(&self) -> bool {
        &&& valid_instant(self.created_at)
        &&& self.last_work_at is Some ==> valid_instant(self.last_work_at->0)
        &&& self.proxy_checked_at is Some ==> valid_instant(self.proxy_checked_at->0)
    }

    /// A worker that is not stored yet, created at the instant `created_at`:
    /// stopped, never run, its proxy never checked.
    pub fn new_at(name: String, source: String, proxy: Option<String>, created_at: i64) -> (worker:
        Worker)
        ensures
            worker == Self::spec_new_at(name, source, proxy, created_at),
    {
        Worker {
            id: None,
            name,
            source,
            status: WorkerStatus::Stopped,
            proxy,
            last_work_at: None,
            proxy_checked_at: None,
            created_at,
        }
    }

    /// A worker that is not stored yet, created now: stopped, never run, its
    /// proxy never checked. The instant of creation is read from the clock.
    pub fn new(name: String, source: String, proxy: Option<String>) -> (worker: Worker)
        ensures
            worker == Self::spec_new_at(name, source, proxy, worker.created_at),
    {
        Worker::new_at(name, source, proxy, now_millis())
    }
}

impl Clone for Worker {
    fn clone(&self) -> (copy: Worker)
        ensures
            copy == *self,
    {
        let proxy = match &self.proxy {
            Some(p) => Some(p.clone()),
            None => None,
        };
        Worker {
            id: self.id,
            name: self.name.clone(),
            source: self.source.clone(),
            status: self.status,
            proxy,
            last_work_at: self.last_work_at,
            proxy_checked_at: self.proxy_checked_at,
            created_at: self.created_at,
        }
    }
}

} // verus!
