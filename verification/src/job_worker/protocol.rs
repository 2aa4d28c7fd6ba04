//! The Redis commands the job queue issues, what Redis does with them, and the
//! properties of the queue protocol that follow.
//!
//! Producers and workers share three keys under a base key:
//! `{base}:jobs` (a LIST of serialized job ids, pushed on the left, popped on the right),
//! `{base}:jobs:seen` (a SET of the ids that are queued or in flight), and
//! `{base}:results` (a HASH from job id to serialized result).
use vstd::prelude::*;
use crate::job_worker::{dedup_key, lemma_keys_distinct, queue_key, results_key};
use crate::job_worker::rx::{fetch_next_job_command, store_result_commands};
use crate::job_worker::tx::{schedule_job_command, schedule_job_follow_up, try_fetch_result_command};

verus! {

/// A Redis command, as the job queue issues it.
#[derive(Debug)]
pub enum RedisCommand {
    SAdd { key: String, member: String },
    SRem { key: String, member: String },
    LPush { key: String, value: Vec<u8> },
    BRPop { key: String },
    HSet { key: String, field: String, value: Vec<u8> },
    HGet { key: String, field: String },
}

/// A Redis command with its keys, members and values as sequences.
pub enum RedisCommandView {
    SAdd { key: Seq<char>, member: Seq<char> },
    SRem { key: Seq<char>, member: Seq<char> },
    LPush { key: Seq<char>, value: Seq<u8> },
    BRPop { key: Seq<char> },
    HSet { key: Seq<char>, field: Seq<char>, value: Seq<u8> },
    HGet { key: Seq<char>, field: Seq<char> },
}

impl View for RedisCommand {
    type V = RedisCommandView;

    open spec fn view(&self) -> RedisCommandView {
        match self {
            RedisCommand::SAdd { key, member } => RedisCommandView::SAdd {
                key: key@,
                member: member@,
            },
            RedisCommand::SRem { key, member } => RedisCommandView::SRem {
                key: key@,
                member: member@,
            },
            RedisCommand::LPush { key, value } => RedisCommandView::LPush {
                key: key@,
                value: value@,
            },
            RedisCommand::BRPop { key } => RedisCommandView::BRPop { key: key@ },
            RedisCommand::HSet { key, field, value } => RedisCommandView::HSet {
                key: key@,
                field: field@,
                value: value@,
            },
            RedisCommand::HGet { key, field } => RedisCommandView::HGet {
                key: key@,
                field: field@,
            },
        }
    }
}

/// A value stored under a Redis key: a set, a list, or a hash.
pub enum RedisValue {
    Members(Set<Seq<char>>),
    Items(Seq<Seq<u8>>),
    Fields(Map<Seq<char>, Seq<u8>>),
}

/// What Redis answers to a command.
pub enum RedisReply {
    Integer(int),
    Bulk(Option<Seq<u8>>),
    Popped(Seq<char>, Seq<u8>),
    /// BRPOP on an empty list waits for an element.
    Blocked,
    WrongType,
}

/// The effect of one command on the Redis keyspace, and the reply, as the Redis
/// documentation describes SADD, SREM, LPUSH, BRPOP, HSET and HGET. A set or list
/// that becomes empty is deleted.
pub open spec fn redis_apply(store: Map<Seq<char>, RedisValue>, cmd: RedisCommandView) -> (
    Map<Seq<char>, RedisValue>,
    RedisReply,
) {
    match cmd {
        RedisCommandView::SAdd { key, member } => if !store.contains_key(key) {
            (store.insert(key, RedisValue::Members(set![member])), RedisReply::Integer(1))
        } else {
            match store[key] {
                RedisValue::Members(s) => if s.contains(member) {
                    (store, RedisReply::Integer(0))
                } else {
                    (store.insert(key, RedisValue::Members(s.insert(member))), RedisReply::Integer(1))
                },
                _ => (store, RedisReply::WrongType),
            }
        },
        RedisCommandView::SRem { key, member } => if !store.contains_key(key) {
            (store, RedisReply::Integer(0))
        } else {
            match store[key] {
                RedisValue::Members(s) => if s.contains(member) {
                    if s.remove(member) == Set::<Seq<char>>::empty() {
                        (store.remove(key), RedisReply::Integer(1))
                    } else {
                        (store.insert(key, RedisValue::Members(s.remove(member))), RedisReply::Integer(1))
                    }
                } else {
                    (store, RedisReply::Integer(0))
                },
                _ => (store, RedisReply::WrongType),
            }
        },
        RedisCommandView::LPush { key, value } => if !store.contains_key(key) {
            (store.insert(key, RedisValue::Items(seq![value])), RedisReply::Integer(1))
        } else {
            match store[key] {
                RedisValue::Items(l) => (
                    store.insert(key, RedisValue::Items(seq![value] + l)),
                    RedisReply::Integer(l.len() + 1int),
                ),
                _ => (store, RedisReply::WrongType),
            }
        },
        RedisCommandView::BRPop { key } => if !store.contains_key(key) {
            (store, RedisReply::Blocked)
        } else {
            match store[key] {
                RedisValue::Items(l) => if l.len() == 0 {
                    (store, RedisReply::Blocked)
                } else if l.len() == 1 {
                    (store.remove(key), RedisReply::Popped(key, l.last()))
                } else {
                    (
                        store.insert(key, RedisValue::Items(l.drop_last())),
                        RedisReply::Popped(key, l.last()),
                    )
                },
                _ => (store, RedisReply::WrongType),
            }
        },
        RedisCommandView::HSet { key, field, value } => if !store.contains_key(key) {
            (store.insert(key, RedisValue::Fields(map![field => value])), RedisReply::Integer(1))
        } else {
            match store[key] {
                RedisValue::Fields(h) => (
                    store.insert(key, RedisValue::Fields(h.insert(field, value))),
                    RedisReply::Integer(if h.contains_key(field) { 0 } else { 1 }),
                ),
                _ => (store, RedisReply::WrongType),
            }
        },
        RedisCommandView::HGet { key, field } => if !store.contains_key(key) {
            (store, RedisReply::Bulk(None))
        } else {
            match store[key] {
                RedisValue::Fields(h) => (
                    store,
                    RedisReply::Bulk(
                        if h.contains_key(field) {
                            Some(h[field])
                        } else {
                            None
                        },
                    ),
                ),
                _ => (store, RedisReply::WrongType),
            }
        },
    }
}

/// The serialized ids waiting in the queue, newest first.
pub open spec fn queued(store: Map<Seq<char>, RedisValue>, base: Seq<char>) -> Seq<Seq<u8>> {
    if store.contains_key(queue_key(base)) && store[queue_key(base)] is Items {
        store[queue_key(base)]->Items_0
    } else {
        Seq::empty()
    }
}

/// The ids that are queued or in flight.
pub open spec fn seen(store: Map<Seq<char>, RedisValue>, base: Seq<char>) -> Set<Seq<char>> {
    if store.contains_key(dedup_key(base)) && store[dedup_key(base)] is Members {
        store[dedup_key(base)]->Members_0
    } else {
        Set::empty()
    }
}

/// The stored results, by job id.
pub open spec fn results(store: Map<Seq<char>, RedisValue>, base: Seq<char>) -> Map<
    Seq<char>,
    Seq<u8>,
> {
    if store.contains_key(results_key(base)) && store[results_key(base)] is Fields {
        store[results_key(base)]->Fields_0
    } else {
        Map::empty()
    }
}

/// Each of the queue's keys is absent or holds a value of its kind; a stored
/// set or list is never empty.
pub open spec fn queue_well_typed(store: Map<Seq<char>, RedisValue>, base: Seq<char>) -> bool {
    &&& store.contains_key(queue_key(base)) ==> store[queue_key(base)] is Items
        && store[queue_key(base)]->Items_0.len() > 0
    &&& store.contains_key(dedup_key(base)) ==> store[dedup_key(base)] is Members
        && store[dedup_key(base)]->Members_0 != Set::<Seq<char>>::empty()
    &&& store.contains_key(results_key(base)) ==> store[results_key(base)] is Fields
}

/// The keyspace after scheduling job `id` with serialized id `payload`.
pub open spec fn run_schedule_job(
    store: Map<Seq<char>, RedisValue>,
    base: Seq<char>,
    id: Seq<char>,
    payload: Seq<u8>,
) -> Map<Seq<char>, RedisValue> {
    let (after_mark, reply) = redis_apply(store, schedule_job_command(base, id));
    match reply {
        RedisReply::Integer(added) => match schedule_job_follow_up(base, added, payload) {
            Some(push) => redis_apply(after_mark, push).0,
            None => after_mark,
        },
        _ => after_mark,
    }
}

/// The keyspace after storing result `payload` of job `id`.
pub open spec fn run_store_result(
    store: Map<Seq<char>, RedisValue>,
    base: Seq<char>,
    id: Seq<char>,
    payload: Seq<u8>,
) -> Map<Seq<char>, RedisValue> {
    let (set, clear) = store_result_commands(base, id, payload);
    redis_apply(redis_apply(store, set).0, clear).0
}

/// Scheduling a job that is neither queued nor in flight marks it and pushes its
/// serialized id onto the queue; the results stay as they were.
pub proof fn law_schedule_enqueues_new_job(
    store: Map<Seq<char>, RedisValue>,
    base: Seq<char>,
    id: Seq<char>,
    payload: Seq<u8>,
)
    requires
        queue_well_typed(store, base),
        !seen(store, base).contains(id),
    ensures
        queued(run_schedule_job(store, base, id, payload), base) == seq![payload] + queued(
            store,
            base,
        ),
        seen(run_schedule_job(store, base, id, payload), base) == seen(store, base).insert(id),
        results(run_schedule_job(store, base, id, payload), base) == results(store, base),
        queue_well_typed(run_schedule_job(store, base, id, payload), base),
{
    lemma_keys_distinct(base);
    let after = run_schedule_job(store, base, id, payload);
    assert(seen(store, base).insert(id) != Set::<Seq<char>>::empty()) by {
        assert(seen(store, base).insert(id).contains(id));
    }
    if !store.contains_key(queue_key(base)) {
        assert(seq![payload] + Seq::<Seq<u8>>::empty() =~= seq![payload]);
    }
    if !store.contains_key(dedup_key(base)) {
        assert(set![id] =~= Set::<Seq<char>>::empty().insert(id));
    }
}

/// Scheduling a job that is already queued or in flight changes nothing.
pub proof fn law_schedule_is_deduplicated(
    store: Map<Seq<char>, RedisValue>,
    base: Seq<char>,
    id: Seq<char>,
    payload: Seq<u8>,
)
    requires
        queue_well_typed(store, base),
        seen(store, base).contains(id),
    ensures
        run_schedule_job(store, base, id, payload) == store,
{
}

/// Scheduling the same job twice before its result is stored queues it once.
pub proof fn law_schedule_twice_queues_once(
    store: Map<Seq<char>, RedisValue>,
    base: Seq<char>,
    id: Seq<char>,
    payload: Seq<u8>,
    payload2: Seq<u8>,
)
    requires
        queue_well_typed(store, base),
    ensures
        run_schedule_job(run_schedule_job(store, base, id, payload), base, id, payload2)
            == run_schedule_job(store, base, id, payload),
{
    if !seen(store, base).contains(id) {
        law_schedule_enqueues_new_job(store, base, id, payload);
    }
    let once = run_schedule_job(store, base, id, payload);
    assert(seen(once, base).contains(id));
    law_schedule_is_deduplicated(once, base, id, payload2);
}

/// The worker takes the oldest queued job; on an empty queue it waits.
pub proof fn law_fetch_takes_oldest(store: Map<Seq<char>, RedisValue>, base: Seq<char>)
    requires
        queue_well_typed(store, base),
    ensures
        queued(store, base).len() == 0 ==> redis_apply(store, fetch_next_job_command(base))
            == (store, RedisReply::Blocked),
        queued(store, base).len() > 0 ==> {
            let (after, reply) = redis_apply(store, fetch_next_job_command(base));
            &&& reply == RedisReply::Popped(queue_key(base), queued(store, base).last())
            &&& queued(after, base) == queued(store, base).drop_last()
            &&& seen(after, base) == seen(store, base)
            &&& results(after, base) == results(store, base)
            &&& queue_well_typed(after, base)
        },
{
    lemma_keys_distinct(base);
}

/// After a worker stores a job's result, polling for that job gives the result
/// back, and the job is no longer marked, so it can be scheduled again.
pub proof fn law_stored_result_is_fetched(
    store: Map<Seq<char>, RedisValue>,
    base: Seq<char>,
    id: Seq<char>,
    payload: Seq<u8>,
)
    requires
        queue_well_typed(store, base),
    ensures
        ({
            let after = run_store_result(store, base, id, payload);
            &&& redis_apply(after, try_fetch_result_command(base, id)) == (
                after,
                RedisReply::Bulk(Some(payload)),
            )
            &&& results(after, base) == results(store, base).insert(id, payload)
            &&& seen(after, base) == seen(store, base).remove(id)
            &&& queued(after, base) == queued(store, base)
            &&& queue_well_typed(after, base)
        }),
{
    lemma_keys_distinct(base);
    let after_set = redis_apply(store, store_result_commands(base, id, payload).0).0;
    if !store.contains_key(results_key(base)) {
        assert(map![id => payload] =~= Map::<Seq<char>, Seq<u8>>::empty().insert(id, payload));
    }
    if !store.contains_key(dedup_key(base)) {
        assert(Set::<Seq<char>>::empty().remove(id) =~= Set::<Seq<char>>::empty());
    } else if !seen(store, base).contains(id) {
        assert(seen(store, base).remove(id) =~= seen(store, base));
    }
}

/// A job polled for before any result is stored for it gives nothing.
pub proof fn law_missing_result_is_none(
    store: Map<Seq<char>, RedisValue>,
    base: Seq<char>,
    id: Seq<char>,
)
    requires
        queue_well_typed(store, base),
        !results(store, base).contains_key(id),
    ensures
        redis_apply(store, try_fetch_result_command(base, id)) == (store, RedisReply::Bulk(None)),
{
}

/// Once its result is stored, a job can be scheduled again, and is queued anew.
pub proof fn law_requeue_after_result(
    store: Map<Seq<char>, RedisValue>,
    base: Seq<char>,
    id: Seq<char>,
    result: Seq<u8>,
    payload: Seq<u8>,
)
    requires
        queue_well_typed(store, base),
    ensures
        ({
            let stored = run_store_result(store, base, id, result);
            queued(run_schedule_job(stored, base, id, payload), base) == seq![payload] + queued(
                store,
                base,
            )
        }),
{
    law_stored_result_is_fetched(store, base, id, result);
    let stored = run_store_result(store, base, id, result);
    law_schedule_enqueues_new_job(stored, base, id, payload);
}

/// A job's whole trip through an idle queue: once scheduled, the worker takes
/// exactly its serialized id; once the worker stores a result, polling gives
/// that result, and the job is free to be scheduled again.
pub proof fn law_job_round_trip(
    store: Map<Seq<char>, RedisValue>,
    base: Seq<char>,
    id: Seq<char>,
    payload: Seq<u8>,
    result: Seq<u8>,
)
    requires
        queue_well_typed(store, base),
        queued(store, base).len() == 0,
        !seen(store, base).contains(id),
    ensures
        ({
            let scheduled = run_schedule_job(store, base, id, payload);
            let (taken, popped) = redis_apply(scheduled, fetch_next_job_command(base));
            let stored = run_store_result(taken, base, id, result);
            &&& popped == RedisReply::Popped(queue_key(base), payload)
            &&& queued(taken, base).len() == 0
            &&& redis_apply(stored, try_fetch_result_command(base, id)).1 == RedisReply::Bulk(
                Some(result),
            )
            &&& !seen(stored, base).contains(id)
        }),
{
    law_schedule_enqueues_new_job(store, base, id, payload);
    let scheduled = run_schedule_job(store, base, id, payload);
    assert(queued(scheduled, base) =~= seq![payload]);
    law_fetch_takes_oldest(scheduled, base);
    let taken = redis_apply(scheduled, fetch_next_job_command(base)).0;
    law_stored_result_is_fetched(taken, base, id, result);
}

} // verus!
