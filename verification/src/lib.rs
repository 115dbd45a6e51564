//! Verified core of a small scraping bot: one configuration record, a pool of
//! workers, and the rule that decides which workers are due to run.
//!
//! The document store itself is reached by the embedding program. This crate
//! decides what the store is asked, states what a correct answer is, and
//! decides what follows from each answer.

mod clock;
pub mod db;
pub mod document;
pub mod error;
pub mod matching;
pub mod models;
pub mod query;
pub mod services;

use vstd::prelude::*;
use crate::db::{database_name_of, parsed_path, DB};
use crate::error::CoreError;
use crate::models::Bot;
use crate::services::bot::BotService;
use crate::services::worker::WorkerService;

verus! {

/// The two services over one store.
#[derive(Debug)]
pub struct Core {
    /// Where the store is.
    pub db: DB,
    pub bot: BotService,
    pub worker: WorkerService,
}

impl Core {
    /// The services over the store that `database_url` names. `found` is the
    /// bot record as that store holds it once initialization has run its
    /// first step.
    ///
    /// Fails with `UrlParse` where the string is no URL, with `DatabaseName`
    /// where the URL names no database, and with `BotDbNotInit` where the
    /// store holds no bot record.
    pub fn new(database_url: &str, found: Option<Bot>) -> (core: Result<Core, CoreError>)
        ensures
            match parsed_path(database_url@) {
                None => core is Err && core->Err_0 is UrlParse,
                Some(path) => match database_name_of(path) {
                    None => core == Err::<Core, CoreError>(CoreError::DatabaseName),
                    Some(name) => match found {
                        None => core == Err::<Core, CoreError>(CoreError::BotDbNotInit),
                        Some(bot) => {
                            &&& core is Ok
                            &&& DB::located(core->Ok_0.db, name)
                            &&& core->Ok_0.bot == (BotService { db: core->Ok_0.db, bot })
                            &&& core->Ok_0.worker == (WorkerService { db: core->Ok_0.db })
                        },
                    },
                },
            },
    {
        let db = match DB::new(database_url) {
            Ok(db) => db,
            Err(e) => return Err(e),
        };
        let bot = match BotService::new(db.clone(), found) {
            Ok(bot) => bot,
            Err(e) => return Err(e),
        };
        let worker = WorkerService::new(db.clone());
        Ok(Core { db, bot, worker })
    }
}

} // verus!
