//! A worker pool that runs up to a configured number of jobs at a time, as a
//! step function: the caller waits for whichever of the enabled events comes
//! first, and hands it back.
use vstd::prelude::*;
use crate::job_worker::protocol::RedisCommand;
use crate::job_worker::rx::{JobWorkerRx, store_result_commands};
use crate::shared::common_args::WorkerArgs;

verus! {

/// A worker pool on one job queue.
#[derive(Clone, Debug)]
pub struct JobWorker {
    pub rx: JobWorkerRx,
    pub cfg: WorkerArgs,
}

/// What the pool waits for, or that it stops.
#[derive(Debug, PartialEq, Eq, Structural)]
pub enum WorkerAction {
    /// Wait for the first of: the next job from the queue (only if `may_fetch`),
    /// or the end of a running job (only if `may_complete`).
    Wait { may_fetch: bool, may_complete: bool },
    /// The run ends with the error just reported.
    Stop,
}

/// What happened while the pool waited.
#[derive(Debug, PartialEq, Eq, Structural)]
pub enum WorkerEvent {
    /// A job was taken from the queue; it now runs.
    Fetched,
    /// Taking a job from the queue failed.
    FetchFailed,
    /// A running job ended and its result was stored.
    Completed,
    /// A running job could not store its result.
    CompletionFailed,
}

/// Whether `event` is one the pool waits for with `in_flight` jobs running.
pub open spec fn event_enabled(workers: u16, in_flight: usize, event: WorkerEvent) -> bool {
    match event {
        WorkerEvent::Fetched | WorkerEvent::FetchFailed => in_flight < workers,
        WorkerEvent::Completed | WorkerEvent::CompletionFailed => in_flight > 0,
    }
}

/// Waiting with `in_flight` jobs running: a job is taken only below the
/// configured number of workers, and an end is awaited only while jobs run.
pub open spec fn wait_with(workers: u16, in_flight: usize) -> WorkerAction {
    WorkerAction::Wait { may_fetch: in_flight < workers, may_complete: in_flight > 0 }
}

impl JobWorker {
    pub fn new(rx: JobWorkerRx, cfg: WorkerArgs) -> (r: JobWorker)
        ensures
            r.rx == rx,
            r.cfg == cfg,
    {
        JobWorker { rx, cfg }
    }

    /// Whether another job may be taken while `in_flight` jobs run: only below
    /// the configured number of workers.
    pub fn may_take_job(&self, in_flight: usize) -> (r: bool)
        ensures
            r == (in_flight < self.cfg.workers),
    {
        in_flight < self.cfg.workers as usize
    }

    /// The start of a run: no job runs, so the pool waits for the first job. A pool
    /// of no workers would wait for nothing at all, and is not accepted.
    pub fn run(&self) -> (r: (usize, WorkerAction))
        requires
            self.cfg.workers > 0,
        ensures
            r == (0usize, wait_with(self.cfg.workers, 0)),
            r.1 == (WorkerAction::Wait { may_fetch: true, may_complete: false }),
    {
        (0, WorkerAction::Wait { may_fetch: true, may_complete: false })
    }

    /// One step of a run, given what happened while `in_flight` jobs ran: a job
    /// taken joins the running ones, an ended job leaves them, and the first error
    /// (taking a job, or storing a result) ends the run. The number running never
    /// exceeds the configured number of workers, and the pool always has something
    /// to wait for until it stops.
    pub fn step(&self, in_flight: usize, event: WorkerEvent) -> (r: (usize, WorkerAction))
        requires
            self.cfg.workers > 0,
            in_flight <= self.cfg.workers,
            event_enabled(self.cfg.workers, in_flight, event),
        ensures
            r.0 <= self.cfg.workers,
            match event {
                WorkerEvent::Fetched => r == (
                    (in_flight + 1) as usize,
                    wait_with(self.cfg.workers, (in_flight + 1) as usize),
                ),
                WorkerEvent::Completed => r == (
                    (in_flight - 1) as usize,
                    wait_with(self.cfg.workers, (in_flight - 1) as usize),
                ),
                WorkerEvent::FetchFailed | WorkerEvent::CompletionFailed => r == (
                    in_flight,
                    WorkerAction::Stop,
                ),
            },
            r.1 matches WorkerAction::Wait { may_fetch, may_complete } ==> may_fetch || may_complete,
            r.1 matches WorkerAction::Wait { may_fetch, may_complete } ==> may_fetch == (r.0
                < self.cfg.workers) && may_complete == (r.0 > 0),
    {
        match event {
            WorkerEvent::Fetched => {
                let n = in_flight + 1;
                (n, WorkerAction::Wait { may_fetch: self.may_take_job(n), may_complete: true })
            },
            WorkerEvent::Completed => {
                let n = in_flight - 1;
                (n, WorkerAction::Wait { may_fetch: true, may_complete: n > 0 })
            },
            WorkerEvent::FetchFailed | WorkerEvent::CompletionFailed => (in_flight, WorkerAction::Stop),
        }
    }

    /// The end of one job: its result, serialized, is stored under its id and the
    /// id's mark is cleared.
    pub fn process_one(&self, job_id: &str, result: Vec<u8>) -> (cmds: (RedisCommand, RedisCommand))
        ensures
            (cmds.0@, cmds.1@) == store_result_commands(self.rx.base(), job_id@, result@),
    {
        self.rx.store_result(job_id, result)
    }
}

/// While the pool waits, it waits for a new job exactly when fewer jobs run than
/// workers are configured, and for the end of a job exactly when some job runs.
pub proof fn law_pool_fetches_below_capacity(workers: u16, in_flight: usize)
    ensures
        wait_with(workers, in_flight) matches WorkerAction::Wait { may_fetch, may_complete }
            && (may_fetch <==> in_flight < workers) && (may_complete <==> in_flight > 0),
{
}

/// Whatever happens, a run never has more jobs running than workers: from the
/// start, each step keeps the number within the bound.
pub proof fn law_pool_stays_bounded(workers: u16, in_flight: usize, event: WorkerEvent)
    requires
        workers > 0,
        in_flight <= workers,
        event_enabled(workers, in_flight, event),
    ensures
        event == WorkerEvent::Fetched ==> in_flight + 1 <= workers,
        event == WorkerEvent::Completed ==> in_flight - 1 >= 0,
        wait_with(workers, in_flight) matches WorkerAction::Wait { may_fetch, may_complete }
            && (may_fetch || may_complete),
{
}

} // verus!
