//! A question put to the pool of workers: which of them are wanted, in what
//! order, and how many at most.
//!
//! A query has one meaning, given by `matches`, `before` and `answer`. It can
//! be handed to the store as a filter and a sort document, or answered in
//! memory by `select` when the pool is at hand.

use vstd::prelude::*;
use mongodb::bson::Document;
use crate::document::{doc_fields, doc_new, docs_as_values, has_key, put_datetime, put_doc, put_docs, put_int32, put_null, put_text, Fields, Value};
use crate::models::{Worker, WorkerStatus, TIME_MAX, TIME_MIN};

verus! {

/// The order in which the wanted workers are returned.
#[derive(Debug, Clone, Copy, PartialEq, Eq, Structural)]
pub enum SortOrder {
    /// Latest creation first.
    NewestFirst,
    /// Earliest last run first; a worker that never ran comes before all that did.
    MostOverdueFirst,
}

/// A question put to the pool of workers.
#[derive(Debug, Clone, Copy, PartialEq, Eq)]
pub struct WorkerQuery {
    /// Present: only workers of this status.
    pub status: Option<WorkerStatus>,
    /// `Some(true)`: only workers with a proxy. `Some(false)`: only workers without one.
    pub has_proxy: Option<bool>,
    /// Present: only workers that never ran, or whose last run ended before this instant.
    pub due_before: Option<i64>,
    pub order: SortOrder,
    /// At most this many workers are returned.
    pub limit: i64,
}

impl WorkerQuery {
    /// A query that can be put to the store: it asks for at least one worker,
    /// and its instant, if any, is one that a document can carry.
    pub open spec fn wf(self) -> bool {
        &&& self.limit >= 1
        &&& self.due_before is Some ==> TIME_MIN <= self.due_before->0 <= TIME_MAX
    }

    /// Whether the query wants `w`.
    pub open spec fn matches(self, w: Worker) -> bool {
        &&& self.status is Some ==> w.status == self.status->0
        &&& self.has_proxy is Some ==> (w.proxy is Some) == self.has_proxy->0
        &&& self.due_before is Some ==> (w.last_work_at is None || w.last_work_at->0
            < self.due_before->0)
    }

    /// Whether `a` has to be returned before `b`.
    pub open spec fn before(self, a: Worker, b: Worker) -> bool {
        match self.order {
            SortOrder::NewestFirst => a.created_at > b.created_at,
            SortOrder::MostOverdueFirst => match (a.last_work_at, b.last_work_at) {
                (None, Some(_)) => true,
                (Some(x), Some(y)) => x < y,
                _ => false,
            },
        }
    }

    /// Where `w` goes among the workers of `ranked`: behind the last of them
    /// that does not have to come after it.
    pub open spec fn slot(self, ranked: Seq<Worker>, w: Worker) -> int
        decreases ranked.len(),
    {
        if ranked.len() > 0 && self.before(w, ranked.last()) {
            self.slot(ranked.drop_last(), w)
        } else {
            ranked.len() as int
        }
    }

    /// `ranked` with `w` put in its place.
    pub open spec fn place(self, ranked: Seq<Worker>, w: Worker) -> Seq<Worker> {
        ranked.insert(self.slot(ranked, w), w)
    }

    /// The wanted workers of `pool`, all of them, in the order of the query.
    /// Workers that the order does not tell apart stay in the order of the pool.
    pub open spec fn ranked(self, pool: Seq<Worker>) -> Seq<Worker>
        decreases pool.len(),
    {
        if pool.len() == 0 {
            Seq::empty()
        } else if self.matches(pool.last()) {
            self.place(self.ranked(pool.drop_last()), pool.last())
        } else {
            self.ranked(pool.drop_last())
        }
    }

    /// The most workers that an answer holds.
    pub open spec fn cap(self) -> nat {
        if self.limit > 0 {
            self.limit as nat
        } else {
            0
        }
    }

    /// The answer to the query over `pool`: the first `cap` of the wanted
    /// workers in the order of the query, or all of them if they are fewer.
    pub open spec fn answer(self, pool: Seq<Worker>) -> Seq<Worker> {
        let ranked = self.ranked(pool);
        if ranked.len() <= self.cap() {
            ranked
        } else {
            ranked.take(self.cap() as int)
        }
    }

    /// The part of the filter that holds the status.
    pub open spec fn status_fields(self) -> Fields {
        match self.status {
            Some(status) => seq![("status"@, Value::Text(status.label()))],
            None => Seq::empty(),
        }
    }

    /// The part of the filter that tells workers with a proxy from workers without.
    pub open spec fn proxy_fields(self) -> Fields {
        match self.has_proxy {
            Some(true) => seq![("proxy"@, Value::Doc(seq![("$ne"@, Value::Null)]))],
            Some(false) => seq![("proxy"@, Value::Doc(seq![("$eq"@, Value::Null)]))],
            None => Seq::empty(),
        }
    }

    /// The part of the filter that holds the instant before which the last
    /// run must have ended: either there was no run, or it ended earlier.
    pub open spec fn due_fields(self) -> Fields {
        match self.due_before {
            Some(t) => seq![
                (
                    "$or"@,
                    Value::List(
                        seq![
                            Value::Doc(seq![("last_work_at"@, Value::Null)]),
                            Value::Doc(
                                seq![("last_work_at"@, Value::Doc(seq![("$lt"@, Value::DateTime(t))]))],
                            ),
                        ],
                    ),
                ),
            ],
            None => Seq::empty(),
        }
    }

    /// The fields of the filter document that asks the store for the wanted workers.
    pub open spec fn filter_fields(self) -> Fields {
        self.status_fields() + self.proxy_fields() + self.due_fields()
    }

    /// The fields of the sort document that asks the store for the order of the query.
    pub open spec fn sort_fields(self) -> Fields {
        match self.order {
            SortOrder::NewestFirst => seq![("created_at"@, Value::Int32(-1i32))],
            SortOrder::MostOverdueFirst => seq![("last_work_at"@, Value::Int32(1i32))],
        }
    }

    /// Whether no worker of `s` stands behind one that it has to come before.
    pub open spec fn ordered(self, s: Seq<Worker>) -> bool {
        forall|i: int, j: int| 0 <= i < j < s.len() ==> !self.before(#[trigger] s[j], #[trigger] s[i])
    }

    /// The wanted workers of `pool`, in the order of the pool.
    pub open spec fn wanted(self, pool: Seq<Worker>) -> Seq<Worker> {
        pool.filter(|w: Worker| self.matches(w))
    }

    /// The slot of `w` lies in `ranked`; every worker from the slot on has to
    /// come after `w`, and the worker in front of the slot does not.
    pub proof fn lemma_slot(self, ranked: Seq<Worker>, w: Worker)
        ensures
            0 <= self.slot(ranked, w) <= ranked.len(),
            forall|j: int|
                self.slot(ranked, w) <= j < ranked.len() ==> self.before(w, #[trigger] ranked[j]),
            self.slot(ranked, w) > 0 ==> !self.before(w, ranked[self.slot(ranked, w) - 1]),
        decreases ranked.len(),
    {
        if ranked.len() > 0 && self.before(w, ranked.last()) {
            let rest = ranked.drop_last();
            self.lemma_slot(rest, w);
            assert forall|j: int| self.slot(ranked, w) <= j < ranked.len() implies self.before(
                w,
                #[trigger] ranked[j],
            ) by {
                if j < rest.len() {
                    assert(ranked[j] == rest[j]);
                }
            }
        }
    }

    /// The slot of `w` is the one position that parts the workers that have
    /// to come after `w` from the last one that does not.
    pub proof fn lemma_slot_is(self, ranked: Seq<Worker>, w: Worker, pos: int)
        requires
            0 <= pos <= ranked.len(),
            forall|j: int| pos <= j < ranked.len() ==> self.before(w, #[trigger] ranked[j]),
            pos > 0 ==> !self.before(w, ranked[pos - 1]),
        ensures
            self.slot(ranked, w) == pos,
        decreases ranked.len(),
    {
        if pos < ranked.len() {
            assert(self.before(w, ranked[ranked.len() - 1]));
            self.lemma_slot_is(ranked.drop_last(), w, pos);
        }
    }

    /// The order of a query never puts a worker before itself or two workers
    /// before each other, and where `a` need not come before `b` nor `b`
    /// before `c`, `a` need not come before `c`.
    pub proof fn lemma_order(self, a: Worker, b: Worker, c: Worker)
        ensures
            !self.before(a, a),
            self.before(a, b) ==> !self.before(b, a),
            !self.before(a, b) && !self.before(b, c) ==> !self.before(a, c),
    {
    }

    /// A worker put in its place in an ordered sequence leaves it ordered.
    pub proof fn lemma_place_ordered(self, ranked: Seq<Worker>, w: Worker)
        requires
            self.ordered(ranked),
        ensures
            self.ordered(self.place(ranked, w)),
    {
        let pos = self.slot(ranked, w);
        let placed = self.place(ranked, w);
        self.lemma_slot(ranked, w);
        assert forall|i: int, j: int| 0 <= i < j < placed.len() implies !self.before(
            #[trigger] placed[j],
            #[trigger] placed[i],
        ) by {
            if j == pos {
                // placed[j] is w, and placed[i] stands in front of the slot
                assert(placed[i] == ranked[i]);
                if i < pos - 1 {
                    assert(!self.before(ranked[pos - 1], ranked[i]));
                }
                self.lemma_order(w, ranked[pos - 1], ranked[i]);
            } else if i == pos {
                assert(placed[j] == ranked[j - 1]);
                assert(self.before(w, ranked[j - 1]));
                self.lemma_order(w, ranked[j - 1], w);
            } else {
                let i0 = if i < pos { i } else { i - 1 };
                let j0 = if j < pos { j } else { j - 1 };
                assert(placed[i] == ranked[i0]);
                assert(placed[j] == ranked[j0]);
                assert(!self.before(ranked[j0], ranked[i0]));
            }
        }
    }

    /// A worker put in its place is there, and so is every worker that was
    /// there before, and no other.
    pub proof fn lemma_place_holds(self, ranked: Seq<Worker>, w: Worker)
        ensures
            self.place(ranked, w).len() == ranked.len() + 1,
            self.place(ranked, w).contains(w),
            forall|x: Worker| ranked.contains(x) ==> #[trigger] self.place(ranked, w).contains(x),
            forall|x: Worker| #[trigger]
                self.place(ranked, w).contains(x) ==> x == w || ranked.contains(x),
    {
        let pos = self.slot(ranked, w);
        let placed = self.place(ranked, w);
        self.lemma_slot(ranked, w);
        assert(placed[pos] == w);
        assert forall|x: Worker| ranked.contains(x) implies #[trigger] placed.contains(x) by {
            let k = choose|k: int| 0 <= k < ranked.len() && ranked[k] == x;
            if k < pos {
                assert(placed[k] == x);
            } else {
                assert(placed[k + 1] == x);
            }
        }
        assert forall|x: Worker| #[trigger] placed.contains(x) implies x == w || ranked.contains(
            x,
        ) by {
            let k = choose|k: int| 0 <= k < placed.len() && placed[k] == x;
            if k < pos {
                assert(ranked[k] == x);
            } else if k > pos {
                assert(ranked[k - 1] == x);
            }
        }
    }

    /// The ranking of a pool is ordered: no worker stands behind one that it
    /// has to come before.
    pub proof fn law_ranked_ordered(self, pool: Seq<Worker>)
        ensures
            self.ordered(self.ranked(pool)),
        decreases pool.len(),
    {
        if pool.len() > 0 {
            self.law_ranked_ordered(pool.drop_last());
            if self.matches(pool.last()) {
                self.lemma_place_ordered(self.ranked(pool.drop_last()), pool.last());
            }
        }
    }

    /// The ranking of a pool holds the wanted workers of the pool and no
    /// other, and as many as the pool holds wanted workers.
    pub proof fn law_ranked_wanted(self, pool: Seq<Worker>)
        ensures
            self.ranked(pool).len() == self.wanted(pool).len(),
            forall|x: Worker| #[trigger]
                self.ranked(pool).contains(x) <==> pool.contains(x) && self.matches(x),
        decreases pool.len(),
    {
        reveal(Seq::filter);
        let ranked = self.ranked(pool);
        if pool.len() == 0 {
            assert forall|x: Worker| #[trigger]
                ranked.contains(x) <==> pool.contains(x) && self.matches(x) by {}
        } else {
            let rest = pool.drop_last();
            let last = pool.last();
            self.law_ranked_wanted(rest);
            self.lemma_place_holds(self.ranked(rest), last);
            assert forall|x: Worker| #[trigger]
                ranked.contains(x) <==> pool.contains(x) && self.matches(x) by {
                if pool.contains(x) {
                    let k = choose|k: int| 0 <= k < pool.len() && pool[k] == x;
                    if k < pool.len() - 1 {
                        assert(rest[k] == x);
                        assert(rest.contains(x));
                    }
                }
                if rest.contains(x) {
                    let k = choose|k: int| 0 <= k < rest.len() && rest[k] == x;
                    assert(pool[k] == x);
                }
                assert(pool[pool.len() - 1] == last);
            }
        }
    }

    /// Every worker of an answer is a worker of the pool that the query
    /// wants: a worker that the query does not want is never returned.
    pub proof fn law_answer_wanted(self, pool: Seq<Worker>)
        ensures
            forall|i: int|
                0 <= i < self.answer(pool).len() ==> self.matches(#[trigger] self.answer(pool)[i])
                    && pool.contains(self.answer(pool)[i]),
    {
        self.law_ranked_wanted(pool);
        let ranked = self.ranked(pool);
        let answer = self.answer(pool);
        assert forall|i: int| 0 <= i < answer.len() implies self.matches(#[trigger] answer[i])
            && pool.contains(answer[i]) by {
            assert(answer[i] == ranked[i]);
            assert(ranked.contains(ranked[i]));
        }
    }

    /// An answer is in the order of the query: no worker is returned behind
    /// one that it has to come before.
    pub proof fn law_answer_ordered(self, pool: Seq<Worker>)
        ensures
            self.ordered(self.answer(pool)),
    {
        self.law_ranked_ordered(pool);
        let ranked = self.ranked(pool);
        let answer = self.answer(pool);
        assert forall|i: int, j: int| 0 <= i < j < answer.len() implies !self.before(
            #[trigger] answer[j],
            #[trigger] answer[i],
        ) by {
            assert(answer[i] == ranked[i]);
            assert(answer[j] == ranked[j]);
        }
    }

    /// An answer holds as many workers as the query allows, or all the wanted
    /// workers of the pool where they are fewer.
    pub proof fn law_answer_size(self, pool: Seq<Worker>)
        ensures
            self.answer(pool).len() == if self.wanted(pool).len() <= self.cap() {
                self.wanted(pool).len()
            } else {
                self.cap()
            },
    {
        self.law_ranked_wanted(pool);
    }

    /// An answer holds the workers that come first: a wanted worker of the
    /// pool that is left out does not have to come before any that is returned.
    pub proof fn law_answer_first(self, pool: Seq<Worker>, left_out: Worker)
        requires
            pool.contains(left_out),
            self.matches(left_out),
            !self.answer(pool).contains(left_out),
        ensures
            forall|i: int|
                0 <= i < self.answer(pool).len() ==> !self.before(
                    left_out,
                    #[trigger] self.answer(pool)[i],
                ),
    {
        self.law_ranked_wanted(pool);
        self.law_ranked_ordered(pool);
        let ranked = self.ranked(pool);
        let answer = self.answer(pool);
        assert(ranked.contains(left_out));
        let k = choose|k: int| 0 <= k < ranked.len() && ranked[k] == left_out;
        if k < answer.len() {
            assert(answer[k] == left_out);
        }
        assert forall|i: int| 0 <= i < answer.len() implies !self.before(
            left_out,
            #[trigger] answer[i],
        ) by {
            assert(answer[i] == ranked[i]);
            assert(!self.before(ranked[k], ranked[i]));
        }
    }

    /// Whether the query wants `w`.
    pub fn accepts(&self, w: &Worker) -> (wanted: bool)
        ensures
            wanted == self.matches(*w),
    {
        let status_ok = match self.status {
            Some(s) => w.status == s,
            None => true,
        };
        let proxy_ok = match self.has_proxy {
            Some(p) => w.proxy.is_some() == p,
            None => true,
        };
        let due_ok = match self.due_before {
            Some(t) => match w.last_work_at {
                Some(last) => last < t,
                None => true,
            },
            None => true,
        };
        status_ok && proxy_ok && due_ok
    }

    /// Whether `a` has to be returned before `b`.
    pub fn comes_before(&self, a: &Worker, b: &Worker) -> (first: bool)
        ensures
            first == self.before(*a, *b),
    {
        match self.order {
            SortOrder::NewestFirst => a.created_at > b.created_at,
            SortOrder::MostOverdueFirst => match (a.last_work_at, b.last_work_at) {
                (None, Some(_)) => true,
                (Some(x), Some(y)) => x < y,
                _ => false,
            },
        }
    }

    /// Answers the query over a pool that is held in memory.
    pub fn select(&self, pool: &Vec<Worker>) -> (picked: Vec<Worker>)
        ensures
            picked@ == self.answer(pool@),
    {
        let mut out: Vec<Worker> = Vec::new();
        let mut i: usize = 0;
        assert(pool@.take(0) =~= Seq::<Worker>::empty());
        while i < pool.len()
            invariant
                i <= pool.len(),
                out@ == self.ranked(pool@.take(i as int)),
            decreases pool.len() - i,
        {
            proof {
                assert(pool@.take(i + 1).drop_last() =~= pool@.take(i as int));
                assert(pool@.take(i + 1).last() == pool@[i as int]);
            }
            if self.accepts(&pool[i]) {
                let w = pool[i].clone();
                let mut pos: usize = out.len();
                while pos > 0 && self.comes_before(&w, &out[pos - 1])
                    invariant
                        pos <= out.len(),
                        forall|j: int| pos <= j < out.len() ==> self.before(w, #[trigger] out@[j]),
                    decreases pos,
                {
                    pos -= 1;
                }
                proof {
                    self.lemma_slot_is(out@, w, pos as int);
                }
                out.insert(pos, w);
            }
            i += 1;
        }
        assert(pool@.take(pool.len() as int) =~= pool@);
        if self.limit <= 0 {
            out.truncate(0);
            assert(out@ =~= self.ranked(pool@).take(0));
        } else if out.len() as u64 > self.limit as u64 {
            out.truncate(self.limit as usize);
        }
        out
    }

    /// The filter document that asks the store for the wanted workers.
    pub fn filter(&self) -> (d: Document)
        requires
            self.wf(),
        ensures
            doc_fields(d) == self.filter_fields(),
    {
        proof {
            reveal_strlit("status");
            reveal_strlit("proxy");
            reveal_strlit("$or");
        }
        let mut d = doc_new();
        match self.status {
            Some(status) => {
                let label = status.to_string();
                put_text(&mut d, "status", label.as_str());
            },
            None => {},
        }
        assert(doc_fields(d) =~= self.status_fields());
        match self.has_proxy {
            Some(wanted) => {
                let mut test = doc_new();
                if wanted {
                    put_null(&mut test, "$ne");
                } else {
                    put_null(&mut test, "$eq");
                }
                assert(doc_fields(test) =~= (if wanted {
                    seq![("$ne"@, Value::Null)]
                } else {
                    seq![("$eq"@, Value::Null)]
                }));
                assert(!has_key(doc_fields(d), "proxy"@)) by {
                    assert("status"@.len() == 6 && "proxy"@.len() == 5);
                    assert(forall|i: int|
                        0 <= i < doc_fields(d).len() ==> (#[trigger] doc_fields(d)[i]).0
                            == "status"@);
                }
                put_doc(&mut d, "proxy", test);
            },
            None => {},
        }
        assert(doc_fields(d) =~= self.status_fields() + self.proxy_fields());
        match self.due_before {
            Some(t) => {
                let mut never = doc_new();
                put_null(&mut never, "last_work_at");
                let mut earlier = doc_new();
                put_datetime(&mut earlier, "$lt", t);
                let mut ran = doc_new();
                put_doc(&mut ran, "last_work_at", earlier);
                let mut either: Vec<Document> = Vec::new();
                either.push(never);
                either.push(ran);
                proof {
                    assert(doc_fields(never) =~= seq![("last_work_at"@, Value::Null)]);
                    assert(doc_fields(earlier) =~= seq![("$lt"@, Value::DateTime(t))]);
                    assert(doc_fields(ran) =~= seq![
                        ("last_work_at"@, Value::Doc(seq![("$lt"@, Value::DateTime(t))])),
                    ]);
                    assert(docs_as_values(either@) =~= seq![
                        Value::Doc(seq![("last_work_at"@, Value::Null)]),
                        Value::Doc(
                            seq![("last_work_at"@, Value::Doc(seq![("$lt"@, Value::DateTime(t))]))],
                        ),
                    ]);
                }
                assert(!has_key(doc_fields(d), "$or"@)) by {
                    assert("status"@.len() == 6 && "proxy"@.len() == 5 && "$or"@.len() == 3);
                    assert(forall|i: int|
                        0 <= i < doc_fields(d).len() ==> (#[trigger] doc_fields(d)[i]).0.len()
                            >= 5);
                }
                put_docs(&mut d, "$or", either);
            },
            None => {},
        }
        assert(doc_fields(d) =~= self.filter_fields());
        d
    }

    /// The sort document that asks the store for the order of the query.
    pub fn sort(&self) -> (d: Document)
        ensures
            doc_fields(d) == self.sort_fields(),
    {
        let mut d = doc_new();
        match self.order {
            SortOrder::NewestFirst => put_int32(&mut d, "created_at", -1),
            SortOrder::MostOverdueFirst => put_int32(&mut d, "last_work_at", 1),
        }
        assert(doc_fields(d) =~= self.sort_fields());
        d
    }
}

} // verus!
