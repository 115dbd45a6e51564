use bot_core::db::DB;
use bot_core::error::CoreError;
use bot_core::models::Bot;
use bot_core::services::bot::{BotChange, BotService, UpdateBotParams};
use mongodb::bson::{Bson, Document};

/// A stand-in for the store's bot collection: it holds at most one record
/// and carries out changes as an update that hands back the changed record.
struct BotStore {
    held: Option<Bot>,
    inserts: usize,
}

impl BotStore {
    fn count(&self) -> i64 {
        if self.held.is_some() {
            1
        } else {
            0
        }
    }

    fn insert(&mut self, bot: Bot) {
        self.held = Some(bot);
        self.inserts += 1;
    }

    fn update(&mut self, change: &BotChange) -> Option<Bot> {
        self.held = self.held.map(|bot| change.apply(&bot));
        self.held
    }
}

fn place() -> DB {
    DB::new("mongodb://localhost/demo").unwrap()
}

fn initialize(store: &mut BotStore) -> Result<BotService, CoreError> {
    if let Some(bot) = BotService::init_bot(store.count()) {
        store.insert(bot);
    }
    BotService::new(place(), store.held)
}

#[test]
fn default_bot_has_the_initial_settings() {
    assert_eq!(
        Bot::default(),
        Bot {
            id: Some(1),
            timeout: 10,
            proxy_check_interval: 60,
            proxy_check_limit: 10,
            work_interval: 10,
            work_limit: 15,
            bot_started: false,
        }
    );
}

#[test]
fn initialization_creates_the_record_once() {
    let mut store = BotStore { held: None, inserts: 0 };
    let first = initialize(&mut store).unwrap();
    assert_eq!(first.bot, Bot::default());
    assert_eq!(store.inserts, 1);

    let second = initialize(&mut store).unwrap();
    assert_eq!(second.bot, first.bot);
    assert_eq!(store.inserts, 1);
    assert_eq!(store.held, Some(Bot::default()));
}

#[test]
fn initialization_keeps_a_record_that_is_there() {
    let kept = Bot { timeout: 99, bot_started: true, ..Bot::default() };
    let mut store = BotStore { held: Some(kept), inserts: 0 };
    let service = initialize(&mut store).unwrap();
    assert_eq!(service.bot, kept);
    assert_eq!(store.inserts, 0);
}

#[test]
fn init_bot_inserts_only_into_an_empty_store() {
    assert_eq!(BotService::init_bot(0), Some(Bot::default()));
    assert_eq!(BotService::init_bot(1), None);
    assert_eq!(BotService::init_bot(2), None);
    assert_eq!(BotService::init_bot(-1), None);
}

#[test]
fn new_without_a_record_is_not_initialized() {
    assert!(matches!(BotService::new(place(), None), Err(CoreError::BotDbNotInit)));
}

#[test]
fn update_changes_the_three_settings_only() {
    let mut store = BotStore { held: None, inserts: 0 };
    let mut service = initialize(&mut store).unwrap();
    let change =
        service.update(UpdateBotParams { timeout: 1, proxy_check_interval: 2, work_interval: 3 });
    let reply = store.update(&change);
    service.refresh(reply).unwrap();
    let expected = Bot {
        id: Some(1),
        timeout: 1,
        proxy_check_interval: 2,
        proxy_check_limit: 10,
        work_interval: 3,
        work_limit: 15,
        bot_started: false,
    };
    assert_eq!(service.bot, expected);
    assert_eq!(store.held, Some(expected));
}

#[test]
fn update_keeps_limits_and_switch_of_any_record() {
    let bot = Bot {
        id: Some(1),
        timeout: 7,
        proxy_check_interval: 8,
        proxy_check_limit: 123,
        work_interval: 9,
        work_limit: -4,
        bot_started: true,
    };
    let changed = BotChange::Params(UpdateBotParams {
        timeout: i32::MAX,
        proxy_check_interval: 0,
        work_interval: i32::MIN,
    })
    .apply(&bot);
    assert_eq!(
        changed,
        Bot {
            id: Some(1),
            timeout: i32::MAX,
            proxy_check_interval: 0,
            proxy_check_limit: 123,
            work_interval: i32::MIN,
            work_limit: -4,
            bot_started: true,
        }
    );
}

#[test]
fn start_then_stop_is_stopped_and_stop_then_start_is_started() {
    let mut store = BotStore { held: None, inserts: 0 };
    let mut service = initialize(&mut store).unwrap();

    let reply = store.update(&service.start());
    service.refresh(reply).unwrap();
    assert!(service.bot.bot_started);
    let reply = store.update(&service.stop());
    service.refresh(reply).unwrap();
    assert!(!service.bot.bot_started);
    assert_eq!(service.bot, Bot::default());

    let reply = store.update(&service.stop());
    service.refresh(reply).unwrap();
    let reply = store.update(&service.start());
    service.refresh(reply).unwrap();
    assert!(service.bot.bot_started);
    assert_eq!(service.bot, Bot { bot_started: true, ..Bot::default() });
}

#[test]
fn start_of_a_started_bot_changes_nothing() {
    let started = Bot { bot_started: true, work_limit: 3, ..Bot::default() };
    assert_eq!(BotChange::Started(true).apply(&started), started);
    let stopped = Bot { bot_started: false, work_limit: 3, ..Bot::default() };
    assert_eq!(BotChange::Started(false).apply(&stopped), stopped);
}

#[test]
fn refresh_without_a_record_fails_and_keeps_the_copy() {
    let mut store = BotStore { held: None, inserts: 0 };
    let mut service = initialize(&mut store).unwrap();
    store.held = None;
    let reply = store.update(&service.start());
    assert!(matches!(service.refresh(reply), Err(CoreError::BotDbNotInit)));
    assert_eq!(service.bot, Bot::default());
    assert_eq!(service.db, place());
}

#[test]
fn requests_of_the_service_are_the_three_changes() {
    let service = BotService::new(place(), Some(Bot::default())).unwrap();
    assert_eq!(service.start(), BotChange::Started(true));
    assert_eq!(service.stop(), BotChange::Started(false));
    let params = UpdateBotParams { timeout: 1, proxy_check_interval: 2, work_interval: 3 };
    assert_eq!(service.update(params), BotChange::Params(params));
}

#[test]
fn bot_filter_finds_the_record_by_its_identity() {
    let mut expected = Document::new();
    expected.insert("_id", 1i32);
    assert_eq!(BotService::filter(), expected);
    assert_eq!(BotService::filter().get("_id"), Some(&Bson::Int32(1)));
}

#[test]
fn start_and_stop_documents_set_the_switch() {
    let mut set = Document::new();
    set.insert("bot_started", true);
    let mut expected = Document::new();
    expected.insert("$set", set);
    assert_eq!(BotChange::Started(true).document(), expected);

    let d = BotChange::Started(false).document();
    assert_eq!(d.len(), 1);
    let set = d.get_document("$set").unwrap();
    assert_eq!(set.len(), 1);
    assert_eq!(set.get("bot_started"), Some(&Bson::Boolean(false)));
}

#[test]
fn update_document_sets_the_three_settings_in_order() {
    let params = UpdateBotParams { timeout: 1, proxy_check_interval: 2, work_interval: 3 };
    let mut set = Document::new();
    set.insert("timeout", 1i32);
    set.insert("proxy_check_interval", 2i32);
    set.insert("work_interval", 3i32);
    let mut expected = Document::new();
    expected.insert("$set", set);
    let d = BotChange::Params(params).document();
    assert_eq!(d, expected);
    let keys: Vec<String> = d.get_document("$set").unwrap().keys().cloned().collect();
    assert_eq!(keys, vec!["timeout", "proxy_check_interval", "work_interval"]);
}
