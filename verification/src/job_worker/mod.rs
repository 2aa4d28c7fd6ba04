//! A Redis-backed job queue: producers schedule job ids and poll for results,
//! workers take jobs and store their results.
pub mod protocol;
pub mod tx;
pub mod rx;
pub mod worker;

use vstd::prelude::*;
use vstd::string::*;

verus! {

/// Suffix of the LIST (queue) of serialized job ids.
pub const JOB_QUEUE_SUFFIX: &'static str = "jobs";

/// Suffix of the SET of ids that are queued or in flight.
pub const JOB_DEDUP_SET_SUFFIX: &'static str = "jobs:seen";

/// Suffix of the HASH from job id to serialized result.
pub const RESULT_HASH_SUFFIX: &'static str = "results";

/// The key `{base}:{suffix}`.
pub open spec fn job_key(base: Seq<char>, suffix: Seq<char>) -> Seq<char> {
    base + ":"@ + suffix
}

/// The queue's key: `{base}:jobs`.
pub open spec fn queue_key(base: Seq<char>) -> Seq<char> {
    job_key(base, "jobs"@)
}

/// The key of the set of queued or in-flight ids: `{base}:jobs:seen`.
pub open spec fn dedup_key(base: Seq<char>) -> Seq<char> {
    job_key(base, "jobs:seen"@)
}

/// The key of the results: `{base}:results`.
pub open spec fn results_key(base: Seq<char>) -> Seq<char> {
    job_key(base, "results"@)
}

/// Builds `{base}:{suffix}`.
pub fn make_key(base: &str, suffix: &str) -> (r: String)
    ensures
        r@ == job_key(base@, suffix@),
{
    let mut key = String::from_str(base);
    key.append(":");
    key.append(suffix);
    key
}

pub fn make_queue_key(base: &str) -> (r: String)
    ensures
        r@ == queue_key(base@),
{
    proof {
        reveal_strlit("jobs");
    }
    make_key(base, JOB_QUEUE_SUFFIX)
}

pub fn make_dedup_key(base: &str) -> (r: String)
    ensures
        r@ == dedup_key(base@),
{
    proof {
        reveal_strlit("jobs:seen");
    }
    make_key(base, JOB_DEDUP_SET_SUFFIX)
}

pub fn make_results_key(base: &str) -> (r: String)
    ensures
        r@ == results_key(base@),
{
    proof {
        reveal_strlit("results");
    }
    make_key(base, RESULT_HASH_SUFFIX)
}

/// The three keys of one queue are different from each other.
pub proof fn lemma_keys_distinct(base: Seq<char>)
    ensures
        queue_key(base) != dedup_key(base),
        queue_key(base) != results_key(base),
        dedup_key(base) != results_key(base),
{
    reveal_strlit(":");
    reveal_strlit("jobs");
    reveal_strlit("jobs:seen");
    reveal_strlit("results");
    assert(queue_key(base).len() != dedup_key(base).len());
    assert(queue_key(base).len() != results_key(base).len());
    assert(dedup_key(base).len() != results_key(base).len());
}

} // verus!
