//! The worker side of the job queue: taking the next job and storing its result.
use vstd::prelude::*;
use vstd::string::*;
use crate::job_worker::{dedup_key, make_dedup_key, make_queue_key, make_results_key, queue_key, results_key};
use crate::job_worker::protocol::{RedisCommand, RedisCommandView};

verus! {

/// The command that waits for the next job: `BRPOP {base}:jobs 0`.
pub open spec fn fetch_next_job_command(base: Seq<char>) -> RedisCommandView {
    RedisCommandView::BRPop { key: queue_key(base) }
}

/// The two commands that store a job's result and clear its mark, in order.
pub open spec fn store_result_commands(base: Seq<char>, id: Seq<char>, payload: Seq<u8>) -> (
    RedisCommandView,
    RedisCommandView,
) {
    (
        RedisCommandView::HSet { key: results_key(base), field: id, value: payload },
        RedisCommandView::SRem { key: dedup_key(base), member: id },
    )
}

/// The worker's handle on a job queue: the base key its three keys hang under.
#[derive(Clone, Debug)]
pub struct JobWorkerRx {
    base_key: String,
}

impl JobWorkerRx {
    pub closed spec fn base(&self) -> Seq<char> {
        self.base_key@
    }

    pub fn new(base_key: String) -> (r: JobWorkerRx)
        ensures
            r.base() == base_key@,
    {
        JobWorkerRx { base_key }
    }

    /// Blocks for the next job: `BRPOP {base}:jobs 0` (oldest first).
    pub fn fetch_next_job(&self) -> (cmd: RedisCommand)
        ensures
            cmd@ == fetch_next_job_command(self.base()),
    {
        RedisCommand::BRPop { key: make_queue_key(self.base_key.as_str()) }
    }

    /// Stores a job's serialized result and clears its mark so the id can be
    /// queued again: `HSET {base}:results {id} {payload}`, then `SREM {base}:jobs:seen {id}`.
    pub fn store_result(&self, job_id: &str, payload: Vec<u8>) -> (cmds: (RedisCommand, RedisCommand))
        ensures
            (cmds.0@, cmds.1@) == store_result_commands(self.base(), job_id@, payload@),
    {
        let set = RedisCommand::HSet {
            key: make_results_key(self.base_key.as_str()),
            field: String::from_str(job_id),
            value: payload,
        };
        let clear = RedisCommand::SRem {
            key: make_dedup_key(self.base_key.as_str()),
            member: String::from_str(job_id),
        };
        (set, clear)
    }
}

} // verus!
