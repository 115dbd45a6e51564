//! How the store reads the documents that it is handed: which workers a
//! filter accepts, which of two workers a sort puts first, and what an update
//! makes of the bot record.
//!
//! This is a model of the store, as far as the documents of this crate go.
//! Against it the documents are proved to mean what the queries and changes
//! mean that they are made from.

use vstd::prelude::*;
use crate::document::{Fields, Value};
use crate::models::{Bot, Worker, WorkerStatus};
use crate::query::{SortOrder, WorkerQuery};
use crate::services::bot::BotChange;
use crate::services::worker::WorkerService;

verus! {

/// The value that the store keeps for `w` in the field `key`, for the fields
/// that filters and sorts look at. A field that is absent reads as null.
pub open spec fn stored_value(w: Worker, key: Seq<char>) -> Value {
    if key == "status"@ {
        Value::Text(w.status.label())
    } else if key == "proxy"@ {
        match w.proxy {
            Some(proxy) => Value::Text(proxy@),
            None => Value::Null,
        }
    } else if key == "last_work_at"@ {
        match w.last_work_at {
            Some(at) => Value::DateTime(at),
            None => Value::Null,
        }
    } else if key == "created_at"@ {
        Value::DateTime(w.created_at)
    } else if key == "name"@ {
        Value::Text(w.name@)
    } else if key == "_id"@ {
        match w.id {
            Some(id) => Value::ObjectId(id@),
            None => Value::Null,
        }
    } else {
        Value::Null
    }
}

/// Whether the store ranks the value `a` below the value `b`: null lies below
/// every instant, and of two instants the earlier lies below.
pub open spec fn ranks_below(a: Value, b: Value) -> bool {
    match (a, b) {
        (Value::Null, Value::DateTime(_)) => true,
        (Value::DateTime(x), Value::DateTime(y)) => x < y,
        _ => false,
    }
}

/// Whether the value `actual` passes `test`. A test is a document of one
/// operator and its operand: `$eq` and `$ne` compare with the operand, `$lt`
/// holds for an instant before the operand. Anything else is a value that
/// `actual` must equal.
pub open spec fn passes(actual: Value, test: Value) -> bool {
    match test {
        Value::Doc(ops) => {
            &&& ops.len() == 1
            &&& {
                ||| ops[0].0 == "$eq"@ && actual == ops[0].1
                ||| ops[0].0 == "$ne"@ && actual != ops[0].1
                ||| ops[0].0 == "$lt"@ && actual is DateTime && ranks_below(actual, ops[0].1)
            }
        },
        other => actual == other,
    }
}

/// Whether `w` passes every test of `fields`, each on the field it is named after.
pub open spec fn passes_all(w: Worker, fields: Fields) -> bool {
    forall|i: int|
        0 <= i < fields.len() ==> passes(
            stored_value(w, (#[trigger] fields[i]).0),
            fields[i].1,
        )
}

/// Whether the filter `fields` accepts `w`: under `$or` one of the listed
/// documents must accept it, and every other field is a test that it must pass.
pub open spec fn accepts(w: Worker, fields: Fields) -> bool {
    forall|i: int|
        0 <= i < fields.len() ==> if (#[trigger] fields[i]).0 == "$or"@ {
            &&& fields[i].1 is List
            &&& exists|j: int|
                0 <= j < fields[i].1->List_0.len() && (#[trigger] fields[i].1->List_0[j]) is Doc
                    && passes_all(w, fields[i].1->List_0[j]->Doc_0)
        } else {
            passes(stored_value(w, fields[i].0), fields[i].1)
        }
}

/// Whether the sort `fields`, of one field and a direction, puts `a` before
/// `b`: upwards the lower value comes first, downwards the higher.
pub open spec fn sorts_before(a: Worker, b: Worker, fields: Fields) -> bool {
    &&& fields.len() == 1
    &&& {
        ||| fields[0].1 == Value::Int32(1i32) && ranks_below(
            stored_value(a, fields[0].0),
            stored_value(b, fields[0].0),
        )
        ||| fields[0].1 == Value::Int32(-1i32) && ranks_below(
            stored_value(b, fields[0].0),
            stored_value(a, fields[0].0),
        )
    }
}

/// The bot record with the field `key` set to `value`.
pub open spec fn bot_with(bot: Bot, key: Seq<char>, value: Value) -> Bot {
    match value {
        Value::Int32(n) => if key == "timeout"@ {
            Bot { timeout: n, ..bot }
        } else if key == "proxy_check_interval"@ {
            Bot { proxy_check_interval: n, ..bot }
        } else if key == "proxy_check_limit"@ {
            Bot { proxy_check_limit: n, ..bot }
        } else if key == "work_interval"@ {
            Bot { work_interval: n, ..bot }
        } else if key == "work_limit"@ {
            Bot { work_limit: n, ..bot }
        } else {
            bot
        },
        Value::Bool(on) => if key == "bot_started"@ {
            Bot { bot_started: on, ..bot }
        } else {
            bot
        },
        _ => bot,
    }
}

/// The bot record with the fields of `fields` set, one after the other.
pub open spec fn bot_set(bot: Bot, fields: Fields) -> Bot
    decreases fields.len(),
{
    if fields.len() == 0 {
        bot
    } else {
        bot_with(bot_set(bot, fields.drop_last()), fields.last().0, fields.last().1)
    }
}

/// What the update `fields` makes of the bot record: under `$set` the fields
/// to set, with their values.
pub open spec fn bot_updated(bot: Bot, fields: Fields) -> Bot {
    if fields.len() == 1 && fields[0].0 == "$set"@ && fields[0].1 is Doc {
        bot_set(bot, fields[0].1->Doc_0)
    } else {
        bot
    }
}

/// The names under which the store keeps the three statuses differ.
pub proof fn lemma_labels_differ(a: WorkerStatus, b: WorkerStatus)
    ensures
        a.label() == b.label() <==> a == b,
{
    reveal_strlit("STARTED");
    reveal_strlit("STOPPED");
    reveal_strlit("PROXY_ERROR");
    assert("STARTED"@[2] != "STOPPED"@[2]);
    assert("STARTED"@.len() != "PROXY_ERROR"@.len());
    assert("STOPPED"@.len() != "PROXY_ERROR"@.len());
}

/// The filter document of a query accepts exactly the workers that the query wants.
pub proof fn law_filter_means_matches(query: WorkerQuery, w: Worker)
    ensures
        accepts(w, query.filter_fields()) <==> query.matches(w),
{
    reveal_strlit("status");
    reveal_strlit("proxy");
    reveal_strlit("last_work_at");
    reveal_strlit("created_at");
    reveal_strlit("$or");
    reveal_strlit("$eq");
    reveal_strlit("$ne");
    reveal_strlit("$lt");
    let status = query.status_fields();
    let proxy = query.proxy_fields();
    let due = query.due_fields();
    let fields = query.filter_fields();
    assert("status"@.len() == 6 && "proxy"@.len() == 5 && "last_work_at"@.len() == 12
        && "created_at"@.len() == 10 && "$or"@.len() == 3 && "$eq"@.len() == 3 && "$ne"@.len()
        == 3 && "$lt"@.len() == 3);
    assert("$or"@[1] == 'o' && "$eq"@[1] == 'e' && "$ne"@[1] == 'n' && "$lt"@[1] == 'l');
    assert(fields.len() == status.len() + proxy.len() + due.len());
    if query.status is Some {
        lemma_labels_differ(w.status, query.status->0);
        assert(fields[0] == status[0]);
    }
    if query.has_proxy is Some {
        assert(fields[status.len() as int] == proxy[0]);
        let test = proxy[0].1->Doc_0;
        assert(test.len() == 1);
        assert(test[0].1 == Value::Null);
    }
    if query.due_before is Some {
        let at = (status.len() + proxy.len()) as int;
        assert(fields[at] == due[0]);
        let list = due[0].1->List_0;
        let never = list[0]->Doc_0;
        let ran = list[1]->Doc_0;
        assert(list.len() == 2);
        assert(never.len() == 1 && never[0] == ("last_work_at"@, Value::Null));
        assert(ran.len() == 1 && ran[0].0 == "last_work_at"@);
        let earlier = ran[0].1->Doc_0;
        assert(earlier.len() == 1 && earlier[0] == ("$lt"@, Value::DateTime(query.due_before->0)));
        assert(passes_all(w, never) <==> w.last_work_at is None) by {
            assert(never[0].0 == "last_work_at"@);
        }
        assert(passes_all(w, ran) <==> w.last_work_at is Some && w.last_work_at->0
            < query.due_before->0) by {
            assert(ran[0].1 == Value::Doc(earlier));
        }
        if query.matches(w) {
            if w.last_work_at is None {
                assert(list[0] is Doc && passes_all(w, list[0]->Doc_0));
            } else {
                assert(list[1] is Doc && passes_all(w, list[1]->Doc_0));
            }
        }
    }
    if query.matches(w) {
        assert forall|i: int| 0 <= i < fields.len() implies if (#[trigger] fields[i]).0 == "$or"@ {
            &&& fields[i].1 is List
            &&& exists|j: int|
                0 <= j < fields[i].1->List_0.len() && (#[trigger] fields[i].1->List_0[j]) is Doc
                    && passes_all(w, fields[i].1->List_0[j]->Doc_0)
        } else {
            passes(stored_value(w, fields[i].0), fields[i].1)
        } by {
            if i < status.len() {
                assert(fields[i] == status[0]);
            } else if i < status.len() + proxy.len() {
                assert(fields[i] == proxy[0]);
            } else {
                assert(fields[i] == due[0]);
            }
        }
    }
}

/// The filter of a name accepts exactly the workers of that name.
pub proof fn law_name_filter_means_named(name: Seq<char>, w: Worker)
    ensures
        accepts(w, WorkerService::name_fields(name)) <==> w.name@ == name,
{
    reveal_strlit("status");
    reveal_strlit("proxy");
    reveal_strlit("last_work_at");
    reveal_strlit("created_at");
    reveal_strlit("name");
    reveal_strlit("$or");
    assert("status"@.len() == 6 && "proxy"@.len() == 5 && "last_work_at"@.len() == 12
        && "created_at"@.len() == 10 && "name"@.len() == 4 && "$or"@.len() == 3);
    let fields = WorkerService::name_fields(name);
    assert(fields[0] == ("name"@, Value::Text(name)));
}

/// The filter of an identifier accepts exactly the workers stored under it.
pub proof fn law_id_filter_means_identified(id: [u8; 12], w: Worker)
    ensures
        accepts(w, WorkerService::id_fields(id)) <==> w.id is Some && w.id->0@ == id@,
{
    reveal_strlit("status");
    reveal_strlit("proxy");
    reveal_strlit("last_work_at");
    reveal_strlit("created_at");
    reveal_strlit("name");
    reveal_strlit("_id");
    reveal_strlit("$or");
    assert("status"@.len() == 6 && "proxy"@.len() == 5 && "last_work_at"@.len() == 12
        && "created_at"@.len() == 10 && "name"@.len() == 4 && "_id"@.len() == 3);
    assert("_id"@[0] == '_' && "$or"@[0] == '$');
    let fields = WorkerService::id_fields(id);
    assert(fields[0] == ("_id"@, Value::ObjectId(id@)));
}

/// The sort document of a query puts a worker before another exactly where
/// the order of the query does.
pub proof fn law_sort_means_before(query: WorkerQuery, a: Worker, b: Worker)
    ensures
        sorts_before(a, b, query.sort_fields()) <==> query.before(a, b),
{
    reveal_strlit("status");
    reveal_strlit("proxy");
    reveal_strlit("last_work_at");
    reveal_strlit("created_at");
    assert("status"@.len() == 6 && "proxy"@.len() == 5 && "last_work_at"@.len() == 12
        && "created_at"@.len() == 10);
    match query.order {
        SortOrder::NewestFirst => {
            assert(query.sort_fields()[0] == ("created_at"@, Value::Int32(-1i32)));
        },
        SortOrder::MostOverdueFirst => {
            assert(query.sort_fields()[0] == ("last_work_at"@, Value::Int32(1i32)));
        },
    }
}

/// The update document of a change makes of the bot record what the change makes of it.
pub proof fn law_update_means_applied(change: BotChange, bot: Bot)
    ensures
        bot_updated(bot, change.update_fields()) == change.applied(bot),
{
    reveal_strlit("timeout");
    reveal_strlit("proxy_check_interval");
    reveal_strlit("proxy_check_limit");
    reveal_strlit("work_interval");
    reveal_strlit("work_limit");
    reveal_strlit("bot_started");
    assert("timeout"@.len() == 7 && "proxy_check_interval"@.len() == 20
        && "proxy_check_limit"@.len() == 17 && "work_interval"@.len() == 13 && "work_limit"@.len()
        == 10 && "bot_started"@.len() == 11);
    let set = change.set_fields();
    assert(change.update_fields()[0] == ("$set"@, Value::Doc(set)));
    reveal_with_fuel(bot_set, 5);
    match change {
        BotChange::Started(on) => {
            assert(set.drop_last() =~= Seq::<(Seq<char>, Value)>::empty());
        },
        BotChange::Params(p) => {
            let two = set.drop_last();
            let one = two.drop_last();
            assert(one.drop_last() =~= Seq::<(Seq<char>, Value)>::empty());
            assert(one.last() == ("timeout"@, Value::Int32(p.timeout)));
            assert(two.last() == ("proxy_check_interval"@, Value::Int32(p.proxy_check_interval)));
            assert(set.last() == ("work_interval"@, Value::Int32(p.work_interval)));
        },
    }
}

} // verus!
