use articles::job_worker::worker::{WorkerAction, WorkerEvent};
use articles::job_worker::protocol::RedisCommand;
use articles::job_worker::rx::JobWorkerRx;
use articles::job_worker::tx::JobWorkerTx;
use articles::job_worker::worker::JobWorker;
use articles::job_worker::{make_dedup_key, make_queue_key, make_results_key};
use articles::shared::common_args::WorkerArgs;

#[test]
fn queue_keys() {
    assert_eq!(make_queue_key("preload"), "preload:jobs");
    assert_eq!(make_dedup_key("preload"), "preload:jobs:seen");
    assert_eq!(make_results_key("preload"), "preload:results");
}

#[test]
fn schedule_marks_then_pushes_only_new_ids() {
    let tx = JobWorkerTx::new("render".to_string());
    match tx.schedule_job("17") {
        RedisCommand::SAdd { key, member } => {
            assert_eq!(key, "render:jobs:seen");
            assert_eq!(member, "17");
        }
        other => panic!("unexpected command {:?}", other),
    }
    assert!(tx.schedule_job_after_add(0, b"17".to_vec()).is_none());
    match tx.schedule_job_after_add(1, b"17".to_vec()) {
        Some(RedisCommand::LPush { key, value }) => {
            assert_eq!(key, "render:jobs");
            assert_eq!(value, b"17".to_vec());
        }
        other => panic!("unexpected command {:?}", other),
    }
    match tx.try_fetch_result("17") {
        RedisCommand::HGet { key, field } => {
            assert_eq!(key, "render:results");
            assert_eq!(field, "17");
        }
        other => panic!("unexpected command {:?}", other),
    }
}

#[test]
fn worker_pops_and_stores() {
    let rx = JobWorkerRx::new("render".to_string());
    match rx.fetch_next_job() {
        RedisCommand::BRPop { key } => assert_eq!(key, "render:jobs"),
        other => panic!("unexpected command {:?}", other),
    }
    match rx.store_result("17", b"\"ok\"".to_vec()) {
        (
            RedisCommand::HSet { key, field, value },
            RedisCommand::SRem { key: seen_key, member },
        ) => {
            assert_eq!(key, "render:results");
            assert_eq!(field, "17");
            assert_eq!(value, b"\"ok\"".to_vec());
            assert_eq!(seen_key, "render:jobs:seen");
            assert_eq!(member, "17");
        }
        other => panic!("unexpected commands {:?}", other),
    }
}

#[test]
fn worker_capacity() {
    let worker = JobWorker::new(JobWorkerRx::new("b".to_string()), WorkerArgs { workers: 4 });
    assert!(worker.may_take_job(0));
    assert!(worker.may_take_job(3));
    assert!(!worker.may_take_job(4));
    assert!(!worker.may_take_job(9));
}

/// A minimal in-memory stand-in for Redis, enough to run the queue's commands.
#[derive(Default)]
struct FakeRedis {
    sets: std::collections::HashMap<String, std::collections::BTreeSet<String>>,
    lists: std::collections::HashMap<String, std::collections::VecDeque<Vec<u8>>>,
    hashes: std::collections::HashMap<String, std::collections::HashMap<String, Vec<u8>>>,
}

#[derive(Debug, PartialEq)]
enum Reply {
    Integer(i64),
    Bulk(Option<Vec<u8>>),
    Popped(String, Vec<u8>),
    Blocked,
}

impl FakeRedis {
    fn run(&mut self, cmd: RedisCommand) -> Reply {
        match cmd {
            RedisCommand::SAdd { key, member } => {
                Reply::Integer(self.sets.entry(key).or_default().insert(member) as i64)
            }
            RedisCommand::SRem { key, member } => {
                let removed = self.sets.get_mut(&key).map(|s| s.remove(&member)).unwrap_or(false);
                Reply::Integer(removed as i64)
            }
            RedisCommand::LPush { key, value } => {
                let list = self.lists.entry(key).or_default();
                list.push_front(value);
                Reply::Integer(list.len() as i64)
            }
            RedisCommand::BRPop { key } => match self.lists.get_mut(&key).and_then(|l| l.pop_back()) {
                Some(v) => Reply::Popped(key, v),
                None => Reply::Blocked,
            },
            RedisCommand::HSet { key, field, value } => {
                let fresh = self.hashes.entry(key).or_default().insert(field, value).is_none();
                Reply::Integer(fresh as i64)
            }
            RedisCommand::HGet { key, field } => {
                Reply::Bulk(self.hashes.get(&key).and_then(|h| h.get(&field).cloned()))
            }
        }
    }

    fn schedule(&mut self, tx: &JobWorkerTx, id: &str) {
        let added = match self.run(tx.schedule_job(id)) {
            Reply::Integer(n) => n,
            other => panic!("unexpected reply {:?}", other),
        };
        if let Some(push) = tx.schedule_job_after_add(added, id.as_bytes().to_vec()) {
            self.run(push);
        }
    }

    fn store(&mut self, rx: &JobWorkerRx, id: &str, result: &[u8]) {
        let (set, clear) = rx.store_result(id, result.to_vec());
        self.run(set);
        self.run(clear);
    }
}

#[test]
fn queue_deduplicates_and_returns_results() {
    let tx = JobWorkerTx::new("q".to_string());
    let rx = JobWorkerRx::new("q".to_string());
    let mut redis = FakeRedis::default();

    assert_eq!(redis.run(tx.try_fetch_result("a")), Reply::Bulk(None));
    redis.schedule(&tx, "a");
    redis.schedule(&tx, "a");
    redis.schedule(&tx, "b");
    assert_eq!(redis.lists["q:jobs"].len(), 2);

    assert_eq!(redis.run(rx.fetch_next_job()), Reply::Popped("q:jobs".to_string(), b"a".to_vec()));
    redis.schedule(&tx, "a");
    assert_eq!(redis.lists["q:jobs"].len(), 1);

    redis.store(&rx, "a", b"done");
    assert_eq!(redis.run(tx.try_fetch_result("a")), Reply::Bulk(Some(b"done".to_vec())));
    redis.schedule(&tx, "a");
    assert_eq!(redis.lists["q:jobs"].len(), 2);

    assert_eq!(redis.run(rx.fetch_next_job()), Reply::Popped("q:jobs".to_string(), b"b".to_vec()));
    assert_eq!(redis.run(rx.fetch_next_job()), Reply::Popped("q:jobs".to_string(), b"a".to_vec()));
    assert_eq!(redis.run(rx.fetch_next_job()), Reply::Blocked);
}

#[test]
fn worker_pool_steps() {
    let worker = JobWorker::new(JobWorkerRx::new("b".to_string()), WorkerArgs { workers: 2 });
    let (n, action) = worker.run();
    assert_eq!((n, action), (0, WorkerAction::Wait { may_fetch: true, may_complete: false }));
    let (n, action) = worker.step(n, WorkerEvent::Fetched);
    assert_eq!((n, action), (1, WorkerAction::Wait { may_fetch: true, may_complete: true }));
    let (n, action) = worker.step(n, WorkerEvent::Fetched);
    assert_eq!((n, action), (2, WorkerAction::Wait { may_fetch: false, may_complete: true }));
    let (n, action) = worker.step(n, WorkerEvent::Completed);
    assert_eq!((n, action), (1, WorkerAction::Wait { may_fetch: true, may_complete: true }));
    let (n, action) = worker.step(n, WorkerEvent::CompletionFailed);
    assert_eq!((n, action), (1, WorkerAction::Stop));
    assert_eq!(worker.step(0, WorkerEvent::FetchFailed), (0, WorkerAction::Stop));
    match worker.process_one("7", b"r".to_vec()) {
        (RedisCommand::HSet { key, field, .. }, RedisCommand::SRem { key: seen, member }) => {
            assert_eq!((key.as_str(), field.as_str()), ("b:results", "7"));
            assert_eq!((seen.as_str(), member.as_str()), ("b:jobs:seen", "7"));
        }
        other => panic!("unexpected commands {:?}", other),
    }
}
