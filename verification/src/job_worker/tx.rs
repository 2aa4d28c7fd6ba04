//! The producer side of the job queue: deduplicated scheduling and result polling.
use vstd::prelude::*;
use vstd::string::*;
use crate::job_worker::{dedup_key, make_dedup_key, make_queue_key, make_results_key, queue_key, results_key};
use crate::job_worker::protocol::{RedisCommand, RedisCommandView};

verus! {

/// The first command of scheduling job `id`: mark it as seen.
pub open spec fn schedule_job_command(base: Seq<char>, id: Seq<char>) -> RedisCommandView {
    RedisCommandView::SAdd { key: dedup_key(base), member: id }
}

/// What follows the mark, given how many members SADD added: nothing if the id
/// was already queued or in flight, else pushing the serialized id onto the queue.
pub open spec fn schedule_job_follow_up(base: Seq<char>, added: int, payload: Seq<u8>) -> Option<
    RedisCommandView,
> {
    if added == 0 {
        None
    } else {
        Some(RedisCommandView::LPush { key: queue_key(base), value: payload })
    }
}

/// The command that looks up the stored result of job `id`.
pub open spec fn try_fetch_result_command(base: Seq<char>, id: Seq<char>) -> RedisCommandView {
    RedisCommandView::HGet { key: results_key(base), field: id }
}

/// The producer's handle on a job queue: the base key its three keys hang under.
#[derive(Clone, Debug)]
pub struct JobWorkerTx {
    base_key: String,
}

impl JobWorkerTx {
    pub closed spec fn base(&self) -> Seq<char> {
        self.base_key@
    }

    pub fn new(base_key: String) -> (r: JobWorkerTx)
        ensures
            r.base() == base_key@,
    {
        JobWorkerTx { base_key }
    }

    /// Deduplicated enqueue of a job id, first step: `SADD {base}:jobs:seen {id}`.
    pub fn schedule_job(&self, job_id: &str) -> (cmd: RedisCommand)
        ensures
            cmd@ == schedule_job_command(self.base(), job_id@),
    {
        RedisCommand::SAdd { key: make_dedup_key(self.base_key.as_str()), member: String::from_str(job_id) }
    }

    /// Deduplicated enqueue, second step, given SADD's reply: if the id was new,
    /// `LPUSH {base}:jobs {payload}` where the payload is the serialized id; if it
    /// was already queued or in flight, nothing.
    pub fn schedule_job_after_add(&self, added: i64, payload: Vec<u8>) -> (cmd: Option<RedisCommand>)
        ensures
            match cmd {
                Some(c) => schedule_job_follow_up(self.base(), added as int, payload@) == Some(c@),
                None => schedule_job_follow_up(self.base(), added as int, payload@) is None,
            },
    {
        if added == 0 {
            None
        } else {
            Some(RedisCommand::LPush { key: make_queue_key(self.base_key.as_str()), value: payload })
        }
    }

    /// Looks up a job's result: `HGET {base}:results {id}`.
    pub fn try_fetch_result(&self, job_id: &str) -> (cmd: RedisCommand)
        ensures
            cmd@ == try_fetch_result_command(self.base(), job_id@),
    {
        RedisCommand::HGet { key: make_results_key(self.base_key.as_str()), field: String::from_str(job_id) }
    }
}

} // verus!
