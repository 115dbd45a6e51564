//! The keeper of the bot record: the one record of configuration and state.
//!
//! The service holds a copy of the record. Every change is asked of the store
//! as one update that hands the changed record back, and the copy is replaced
//! by what came back: after each round trip the copy is what the store holds.

use vstd::prelude::*;
use mongodb::bson::Document;
use crate::db::DB;
use crate::document::{doc_fields, doc_new, has_key, put_bool, put_doc, put_int32, Fields, Value};
use crate::error::CoreError;
use crate::models::Bot;

verus! {

/// New values for the three settings that can be changed together.
#[derive(Debug, Clone, Copy, PartialEq, Eq)]
pub struct UpdateBotParams {
    pub timeout: i32,
    pub proxy_check_interval: i32,
    pub work_interval: i32,
}

/// A change to the bot record.
#[derive(Debug, Clone, Copy, PartialEq, Eq)]
pub enum BotChange {
    /// Switches the scheduling loop on or off.
    Started(bool),
    /// Replaces the three settings and leaves the rest.
    Params(UpdateBotParams),
}

impl BotChange {
    /// The record `bot` after the change.
    pub open spec fn applied(self, bot: Bot) -> Bot {
        match self {
            BotChange::Started(on) => Bot { bot_started: on, ..bot },
            BotChange::Params(p) => Bot {
                timeout: p.timeout,
                proxy_check_interval: p.proxy_check_interval,
                work_interval: p.work_interval,
                ..bot
            },
        }
    }

    /// What the store holds after it was asked for the change, and what it
    /// hands back: the changed record where it held one, and nothing where it
    /// held none.
    pub open spec fn stored(self, held: Option<Bot>) -> Option<Bot> {
        match held {
            Some(bot) => Some(self.applied(bot)),
            None => None,
        }
    }

    /// The fields that the change sets, with their new values.
    pub open spec fn set_fields(self) -> Fields {
        match self {
            BotChange::Started(on) => seq![("bot_started"@, Value::Bool(on))],
            BotChange::Params(p) => seq![
                ("timeout"@, Value::Int32(p.timeout)),
                ("proxy_check_interval"@, Value::Int32(p.proxy_check_interval)),
                ("work_interval"@, Value::Int32(p.work_interval)),
            ],
        }
    }

    /// The fields of the update document that asks the store for the change.
    pub open spec fn update_fields(self) -> Fields {
        seq![("$set"@, Value::Doc(self.set_fields()))]
    }

    /// The record `bot` after the change.
    pub fn apply(&self, bot: &Bot) -> (changed: Bot)
        ensures
            changed == self.applied(*bot),
    {
        match self {
            BotChange::Started(on) => Bot {
                id: bot.id,
                timeout: bot.timeout,
                proxy_check_interval: bot.proxy_check_interval,
                proxy_check_limit: bot.proxy_check_limit,
                work_interval: bot.work_interval,
                work_limit: bot.work_limit,
                bot_started: *on,
            },
            BotChange::Params(p) => Bot {
                id: bot.id,
                timeout: p.timeout,
                proxy_check_interval: p.proxy_check_interval,
                proxy_check_limit: bot.proxy_check_limit,
                work_interval: p.work_interval,
                work_limit: bot.work_limit,
                bot_started: bot.bot_started,
            },
        }
    }

    /// The update document that asks the store for the change: it sets the
    /// fields of the change and no other.
    pub fn document(&self) -> (d: Document)
        ensures
            doc_fields(d) == self.update_fields(),
    {
        let mut set = doc_new();
        match self {
            BotChange::Started(on) => {
                put_bool(&mut set, "bot_started", *on);
            },
            BotChange::Params(p) => {
                proof {
                    reveal_strlit("timeout");
                    reveal_strlit("proxy_check_interval");
                    reveal_strlit("work_interval");
                }
                put_int32(&mut set, "timeout", p.timeout);
                assert(!has_key(doc_fields(set), "proxy_check_interval"@)) by {
                    assert(forall|i: int|
                        0 <= i < doc_fields(set).len() ==> (#[trigger] doc_fields(set)[i]).0.len()
                            == 7);
                }
                put_int32(&mut set, "proxy_check_interval", p.proxy_check_interval);
                assert(!has_key(doc_fields(set), "work_interval"@)) by {
                    assert(forall|i: int|
                        0 <= i < doc_fields(set).len() ==> (#[trigger] doc_fields(set)[i]).0.len()
                            != 13);
                }
                put_int32(&mut set, "work_interval", p.work_interval);
            },
        }
        assert(doc_fields(set) =~= self.set_fields());
        let mut d = doc_new();
        put_doc(&mut d, "$set", set);
        assert(doc_fields(d) =~= self.update_fields());
        d
    }
}

/// The keeper of the bot record.
#[derive(Debug)]
pub struct BotService {
    /// Where the store is.
    pub db: DB,
    /// The record as the store last handed it out.
    pub bot: Bot,
}

impl BotService {
    /// The fields of the filter that finds the bot record.
    pub open spec fn filter_fields() -> Fields {
        seq![("_id"@, Value::Int32(1i32))]
    }

    /// The record to insert in the first step of initialization, where the
    /// store counts `count` bot records.
    pub open spec fn seed(count: i64) -> Option<Bot> {
        if count == 0 {
            Some(Bot::initial())
        } else {
            None
        }
    }

    /// The number of bot records that the store counts where it holds `held`.
    pub open spec fn records(held: Option<Bot>) -> i64 {
        if held is Some {
            1
        } else {
            0
        }
    }

    /// What the store holds after the first step of initialization, where it
    /// held `held` before.
    pub open spec fn initialized(held: Option<Bot>) -> Option<Bot> {
        match Self::seed(Self::records(held)) {
            Some(bot) => Some(bot),
            None => held,
        }
    }

    /// The service after it took in `found`, which the store handed back for
    /// a change: the copy is replaced where there is a record to replace it.
    pub open spec fn refreshed(self, found: Option<Bot>) -> BotService {
        match found {
            Some(bot) => BotService { db: self.db, bot },
            None => self,
        }
    }

    /// The filter document that finds the bot record.
    pub fn filter() -> (d: Document)
        ensures
            doc_fields(d) == Self::filter_fields(),
    {
        let mut d = doc_new();
        put_int32(&mut d, "_id", 1);
        assert(doc_fields(d) =~= Self::filter_fields());
        d
    }

    /// First step of initialization. `count` is the number of bot records that
    /// the store holds. Returns the record to insert before the bot is loaded:
    /// the initial record where the store holds none, and nothing otherwise.
    pub fn init_bot(count: i64) -> (insert: Option<Bot>)
        ensures
            insert == Self::seed(count),
    {
        if count == 0 {
            Some(Bot::default())
        } else {
            None
        }
    }

    /// Last step of initialization. `found` is the bot record as the store
    /// holds it after the first step. Fails with `BotDbNotInit` where the
    /// store holds none.
    pub fn new(db: DB, found: Option<Bot>) -> (service: Result<BotService, CoreError>)
        ensures
            match found {
                Some(bot) => service == Ok::<BotService, CoreError>(BotService { db, bot }),
                None => service == Err::<BotService, CoreError>(CoreError::BotDbNotInit),
            },
    {
        match found {
            Some(bot) => Ok(BotService { db, bot }),
            None => Err(CoreError::BotDbNotInit),
        }
    }

    /// The change that switches the scheduling loop on.
    pub fn start(&self) -> (change: BotChange)
        ensures
            change == BotChange::Started(true),
    {
        BotChange::Started(true)
    }

    /// The change that switches the scheduling loop off.
    pub fn stop(&self) -> (change: BotChange)
        ensures
            change == BotChange::Started(false),
    {
        BotChange::Started(false)
    }

    /// The change that replaces the three settings by those of `params`.
    pub fn update(&self, params: UpdateBotParams) -> (change: BotChange)
        ensures
            change == BotChange::Params(params),
    {
        BotChange::Params(params)
    }

    /// Takes in what the store handed back for a change: the changed record
    /// replaces the copy. Where the store held no record, the copy stays and
    /// the call fails with `BotDbNotInit`.
    pub fn refresh(&mut self, found: Option<Bot>) -> (done: Result<(), CoreError>)
        ensures
            *final(self) == old(self).refreshed(found),
            match found {
                Some(_) => done is Ok,
                None => done == Err::<(), CoreError>(CoreError::BotDbNotInit),
            },
    {
        match found {
            Some(bot) => {
                self.bot = bot;
                Ok(())
            },
            None => Err(CoreError::BotDbNotInit),
        }
    }

    /// Initialization may be run again and again. After one run the store
    /// holds a bot record: the one it held before, or the initial record where
    /// it held none. A further run inserts nothing and leaves that record as
    /// it is, so the service is made with the same record each time.
    pub proof fn law_initialization_idempotent(held: Option<Bot>)
        ensures
            Self::initialized(held) is Some,
            held is Some ==> Self::initialized(held) == held,
            held is None ==> Self::initialized(held) == Some(Bot::initial()),
            Self::seed(Self::records(Self::initialized(held))) is None,
            Self::initialized(Self::initialized(held)) == Self::initialized(held),
    {
    }

    /// A change of the settings changes the three settings and nothing else:
    /// the two limits, the switch and the identity stay as they were.
    pub proof fn law_update_keeps_rest(bot: Bot, params: UpdateBotParams)
        ensures
            BotChange::Params(params).applied(bot) == (Bot {
                id: bot.id,
                timeout: params.timeout,
                proxy_check_interval: params.proxy_check_interval,
                proxy_check_limit: bot.proxy_check_limit,
                work_interval: params.work_interval,
                work_limit: bot.work_limit,
                bot_started: bot.bot_started,
            }),
    {
    }

    /// Starting and stopping change the switch and nothing else, the later of
    /// two changes decides, and a change to what the switch shows already
    /// leaves the record as it is.
    pub proof fn law_start_stop(bot: Bot, first: bool, second: bool)
        ensures
            BotChange::Started(first).applied(bot) == (Bot { bot_started: first, ..bot }),
            BotChange::Started(second).applied(BotChange::Started(first).applied(bot))
                == BotChange::Started(second).applied(bot),
            bot.bot_started == first ==> BotChange::Started(first).applied(bot) == bot,
    {
    }

    /// A round trip keeps the copy equal to the store: where the store holds
    /// a record and carries out `change`, the service that takes in what the
    /// store hands back has as its copy the record that the store holds then,
    /// which is the record before with the change applied.
    pub proof fn law_copy_follows_store(self, change: BotChange, held: Bot)
        ensures
            change.stored(Some(held)) == Some(change.applied(held)),
            self.refreshed(change.stored(Some(held))).bot == change.applied(held),
            self.refreshed(change.stored(Some(held))).db == self.db,
    {
    }
}

} // verus!
