use jtp::{
    Dispatch, ListenerFn, TaskFn, RejectedTaskHandler, SendOutcome, TPError, Task, TaskBody, TaskListener,
    TaskListeners, ThreadPool, ThreadPoolBuilder,
};
use std::collections::HashSet;
use std::sync::{Arc, Mutex};

struct Nothing;

impl TaskBody for Nothing {
    fn call(self: Box<Self>) {}
}

fn job() -> TaskFn {
    TaskFn(Box::new(Nothing))
}

struct Record {
    log: Arc<Mutex<Vec<String>>>,
    what: &'static str,
}

impl TaskBody for Record {
    fn call(self: Box<Self>) {
        self.log.lock().unwrap().push(self.what.to_string());
    }
}

impl TaskListener for Record {
    fn notify(&self, id: usize) {
        self.log.lock().unwrap().push(format!("{} {}", self.what, id));
    }
}

struct CollectIds {
    ids: Arc<Mutex<HashSet<usize>>>,
}

impl TaskListener for CollectIds {
    fn notify(&self, id: usize) {
        self.ids.lock().unwrap().insert(id);
    }
}

fn pool(core: usize, max: usize, cap: usize, handler: RejectedTaskHandler) -> ThreadPool {
    ThreadPoolBuilder::new()
        .core_pool_size(core)
        .max_pool_size(max)
        .channel_capacity(cap)
        .rejected_handler(handler)
        .build()
        .unwrap()
}

fn full_task(pool: &mut ThreadPool) -> Task {
    match pool.execute(job()) {
        Ok(Dispatch::ChannelFull(t, refusal)) => {
            assert_eq!(refusal.id(), t.id());
            t
        }
        _ => panic!("the channel should be full"),
    }
}

#[test]
fn core_workers_are_started_first() {
    let mut pool = pool(2, 4, 4, RejectedTaskHandler::Abort);
    for expected in 0..2 {
        match pool.execute(job()) {
            Ok(Dispatch::StartCoreWorker(t)) => assert_eq!(t.id(), expected),
            _ => panic!("a core worker should be started"),
        }
    }
    assert_eq!(pool.num_of_core_workers(), 2);
    for _ in 0..4 {
        assert!(matches!(pool.execute(job()), Ok(Dispatch::Queued(_))));
    }
    assert_eq!(pool.num_of_core_workers(), 2);
    let t = full_task(&mut pool);
    assert_eq!(t.id(), 6);
}

#[test]
fn full_channel_starts_non_core_workers_up_to_the_limit() {
    let mut pool = pool(1, 3, 3, RejectedTaskHandler::Abort);
    assert!(matches!(pool.execute(job()), Ok(Dispatch::StartCoreWorker(_))));
    for _ in 0..3 {
        assert!(matches!(pool.execute(job()), Ok(Dispatch::Queued(_))));
    }
    let t = full_task(&mut pool);
    let id = t.id();
    match pool.process_task_if_channel_full(t, &vec![]) {
        Ok(Dispatch::StartWorker(t)) => assert_eq!(t.id(), id),
        _ => panic!("a non-core worker should be started"),
    }
    let t = full_task(&mut pool);
    assert!(matches!(
        pool.process_task_if_channel_full(t, &vec![false]),
        Ok(Dispatch::StartWorker(_))
    ));
    let t = full_task(&mut pool);
    assert!(matches!(
        pool.process_task_if_channel_full(t, &vec![false, false]),
        Err(TPError::Abort)
    ));
    assert_eq!(pool.active_count(&vec![false], &vec![false, false]), 3);
    assert_eq!(pool.active_count(&vec![true], &vec![false, false]), 2);
    assert_eq!(pool.active_count(&vec![false], &vec![true, false]), 2);
    assert_eq!(pool.num_of_active_workers(&vec![true, true]), 0);
}

#[test]
fn finished_worker_is_reused() {
    let mut pool = pool(1, 3, 3, RejectedTaskHandler::Abort);
    assert!(matches!(pool.execute(job()), Ok(Dispatch::StartCoreWorker(_))));
    for _ in 0..3 {
        assert!(matches!(pool.execute(job()), Ok(Dispatch::Queued(_))));
    }
    let t = full_task(&mut pool);
    assert!(matches!(
        pool.process_task_if_channel_full(t, &vec![]),
        Ok(Dispatch::StartWorker(_))
    ));
    let t = full_task(&mut pool);
    assert!(matches!(
        pool.process_task_if_channel_full(t, &vec![false]),
        Ok(Dispatch::StartWorker(_))
    ));
    let t = full_task(&mut pool);
    let id = t.id();
    match pool.process_task_if_channel_full(t, &vec![false, true]) {
        Ok(Dispatch::RestartWorker(i, t)) => {
            assert_eq!(i, 1);
            assert_eq!(t.id(), id);
        }
        _ => panic!("the finished worker should be restarted"),
    }
    assert_eq!(pool.active_count(&vec![false], &vec![false, true]), 2);
}

#[test]
fn rejected_tasks_follow_the_handler() {
    let mut discard = pool(1, 1, 1, RejectedTaskHandler::Discard);
    assert!(matches!(discard.execute(job()), Ok(Dispatch::StartCoreWorker(_))));
    assert!(matches!(discard.execute(job()), Ok(Dispatch::Queued(_))));
    let t = full_task(&mut discard);
    assert!(matches!(
        discard.process_task_if_channel_full(t, &vec![]),
        Ok(Dispatch::Discarded)
    ));

    let mut caller = pool(1, 1, 1, RejectedTaskHandler::CallerRuns);
    assert!(matches!(caller.execute(job()), Ok(Dispatch::StartCoreWorker(_))));
    assert!(matches!(caller.execute(job()), Ok(Dispatch::Queued(_))));
    let t = full_task(&mut caller);
    let id = t.id();
    match caller.process_task_if_channel_full(t, &vec![]) {
        Ok(Dispatch::RunInCaller(t)) => assert_eq!(t.id(), id),
        _ => panic!("the task should run in the caller"),
    }

    let mut abort = pool(1, 1, 1, RejectedTaskHandler::Abort);
    let t = Task::create(9, job(), Arc::new(TaskListeners::ignore_all()));
    assert!(matches!(abort.reject(t), Err(TPError::Abort)));
    assert!(matches!(abort.execute(job()), Ok(Dispatch::StartCoreWorker(_))));
}

#[test]
fn shutdown_refuses_new_tasks() {
    let mut pool = pool(1, 2, 2, RejectedTaskHandler::Abort);
    assert!(!pool.is_closed());
    assert!(matches!(pool.execute(job()), Ok(Dispatch::StartCoreWorker(_))));
    pool.shutdown();
    assert!(pool.is_closed());
    assert!(matches!(pool.execute(job()), Err(TPError::Closed)));
    pool.shutdown();
    assert!(pool.is_closed());
    assert!(matches!(pool.execute(job()), Err(TPError::Closed)));
    assert_eq!(pool.num_of_core_workers(), 1);
}

#[test]
fn wait_closes_the_pool_and_takes_the_workers() {
    let mut pool = pool(2, 4, 4, RejectedTaskHandler::Discard);
    assert!(matches!(pool.execute(job()), Ok(Dispatch::StartCoreWorker(_))));
    assert!(matches!(pool.execute(job()), Ok(Dispatch::StartCoreWorker(_))));
    for _ in 0..4 {
        assert!(matches!(pool.execute(job()), Ok(Dispatch::Queued(_))));
    }
    let t = full_task(&mut pool);
    assert!(matches!(
        pool.process_task_if_channel_full(t, &vec![]),
        Ok(Dispatch::StartWorker(_))
    ));
    assert_eq!(pool.wait(), Some(2));
    assert!(pool.is_closed());
    // The non-core worker stays until it is taken.
    assert_eq!(pool.active_count(&vec![], &vec![false]), 1);
    assert!(matches!(pool.execute(job()), Err(TPError::Closed)));
    assert_eq!(pool.take_workers(), Some(1));
    assert_eq!(pool.active_count(&vec![], &vec![]), 0);
    assert_eq!(pool.wait(), None);
    assert_eq!(pool.take_workers(), None);
    let t = Task::create(1, job(), Arc::new(TaskListeners::ignore_all()));
    assert!(matches!(
        pool.process_task_if_channel_full(t, &vec![]),
        Ok(Dispatch::Discarded)
    ));
}

#[test]
fn queued_tasks_reach_the_receiver_in_order() {
    let mut pool = pool(1, 1, 3, RejectedTaskHandler::Abort);
    assert!(matches!(pool.execute(job()), Ok(Dispatch::StartCoreWorker(_))));
    for expected in 1..4 {
        match pool.execute(job()) {
            Ok(Dispatch::Queued(receipt)) => assert_eq!(receipt.id(), expected),
            _ => panic!("the task should be queued"),
        }
    }
    let receiver = pool.receiver();
    match pool.execute(job()) {
        Ok(Dispatch::ChannelFull(t, refusal)) => {
            assert_eq!(t.id(), 4);
            assert_eq!(refusal.id(), 4);
        }
        _ => panic!("the channel should be full"),
    }
    for expected in 1..4 {
        assert_eq!(receiver.try_recv().unwrap().id(), expected);
    }
    assert!(matches!(pool.execute(job()), Ok(Dispatch::Queued(_))));
}

#[test]
fn dispatch_of_send_outcomes() {
    let t = Task::create(5, job(), Arc::new(TaskListeners::ignore_all()));
    assert!(matches!(
        ThreadPool::dispatch_send_outcome(SendOutcome::Disconnected(t)),
        Err(TPError::Closed)
    ));
}

#[test]
fn task_run_calls_hooks_around_the_body() {
    let log = Arc::new(Mutex::new(Vec::new()));
    let listeners = TaskListeners {
        before_execute: Some(ListenerFn(Box::new(Record { log: log.clone(), what: "before" }))),
        after_execute: Some(ListenerFn(Box::new(Record { log: log.clone(), what: "after" }))),
    };
    let task = Task::create(7, TaskFn(Box::new(Record { log: log.clone(), what: "body" })), Arc::new(listeners));
    assert_eq!(task.id(), 7);
    task.run();
    assert_eq!(*log.lock().unwrap(), vec!["before 7", "body", "after 7"]);
}

#[test]
fn every_task_gets_its_own_id() {
    let ids = Arc::new(Mutex::new(HashSet::new()));
    let mut pool = ThreadPoolBuilder::default()
        .lisenter_before_execute(ListenerFn(Box::new(CollectIds { ids: ids.clone() })))
        .channel_capacity(50)
        .core_pool_size(1)
        .max_pool_size(1)
        .build()
        .unwrap();
    let receiver = pool.receiver();
    for _ in 0..50 {
        match pool.execute(job()).unwrap() {
            Dispatch::StartCoreWorker(t) => t.run(),
            Dispatch::Queued(_) => receiver.try_recv().unwrap().run(),
            _ => panic!("the channel has room"),
        }
    }
    assert_eq!(ids.lock().unwrap().len(), 50);
}

#[test]
fn receiver_reports_the_channel_capacity() {
    let pool = pool(2, 5, 7, RejectedTaskHandler::Abort);
    assert_eq!(pool.receiver().capacity(), Some(7));
}

#[test]
fn ignore_all_has_no_hooks() {
    let listeners = TaskListeners::ignore_all();
    assert!(listeners.before_execute.is_none());
    assert!(listeners.after_execute.is_none());
    let log = Arc::new(Mutex::new(Vec::new()));
    let task = Task::create(3, TaskFn(Box::new(Record { log: log.clone(), what: "body" })), Arc::new(listeners));
    task.run();
    assert_eq!(*log.lock().unwrap(), vec!["body"]);
}

#[test]
fn listener_setters_replace_only_their_hook() {
    let log = Arc::new(Mutex::new(Vec::new()));
    let mut pool = ThreadPoolBuilder::new()
        .lisenter_after_execute(ListenerFn(Box::new(Record { log: log.clone(), what: "after" })))
        .lisenter_before_execute(ListenerFn(Box::new(Record { log: log.clone(), what: "before" })))
        .channel_capacity(2)
        .max_pool_size(2)
        .core_pool_size(1)
        .build()
        .unwrap();
    match pool.execute(TaskFn(Box::new(Record { log: log.clone(), what: "body" }))) {
        Ok(Dispatch::StartCoreWorker(t)) => t.run(),
        _ => panic!("a core worker should be started"),
    }
    assert_eq!(*log.lock().unwrap(), vec!["before 0", "body", "after 0"]);
}
