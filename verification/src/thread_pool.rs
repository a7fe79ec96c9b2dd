use crate::builder::{valid_config, PoolConfig, ThreadPoolBuilder};
use crate::channel::{
    bounded_channel, clone_receiver, Refusal, SendReceipt, receiver_capacity, receiver_channel, sender_capacity,
    sender_channel, try_send, SendOutcome, MAX_CHANNEL_CAPACITY,
};
use crate::task::{Task, TaskFn, TaskListeners};
use crossbeam_channel::{Receiver, Sender};
use std::sync::Arc;
use std::time::Duration;
use vstd::prelude::*;

verus! {

/// An error returned from [`ThreadPool::execute`].
#[derive(Clone, Copy, Debug, PartialEq, Eq, Structural)]
pub enum TPError {
    /// The task was rejected by [`RejectedTaskHandler::Abort`]: the channel
    /// was full and the pool had as many workers as it may have.
    Abort,
    /// The pool is closed.
    Closed,
}

/// What becomes of a task that is rejected.
#[derive(Clone, Copy, Debug, PartialEq, Eq, Structural)]
pub enum RejectedTaskHandler {
    /// Returns [`TPError::Abort`].
    Abort,
    /// Drops the task and returns `Ok`.
    Discard,
    /// Runs the task at once in the caller's thread.
    CallerRuns,
}

/// What the caller is to do with a task that the pool has accepted.
pub enum Dispatch {
    /// Start a core worker whose first task is this one.
    StartCoreWorker(Task),
    /// Nothing: the task waits in the channel, as the receipt shows.
    Queued(SendReceipt),
    /// The channel refused the task because it was full, as the refusal
    /// shows: look at which non-core workers have finished and hand the task
    /// to [`ThreadPool::process_task_if_channel_full`].
    ChannelFull(Task, Refusal),
    /// Hand the task to the non-core worker at the given index, whose thread has ended.
    RestartWorker(usize, Task),
    /// Start a new non-core worker whose first task is this one.
    StartWorker(Task),
    /// Run the task in the caller's thread.
    RunInCaller(Task),
    /// Nothing: the task was dropped.
    Discarded,
}

/// A [`Dispatch`] with its task left out.
pub enum Step {
    StartCoreWorker,
    Queued,
    ChannelFull,
    RestartWorker(int),
    StartWorker,
    RunInCaller,
    Discarded,
}

impl Dispatch {
    pub open spec fn step(self) -> Step {
        match self {
            Dispatch::StartCoreWorker(_) => Step::StartCoreWorker,
            Dispatch::Queued(_) => Step::Queued,
            Dispatch::ChannelFull(..) => Step::ChannelFull,
            Dispatch::RestartWorker(i, _) => Step::RestartWorker(i as int),
            Dispatch::StartWorker(_) => Step::StartWorker,
            Dispatch::RunInCaller(_) => Step::RunInCaller,
            Dispatch::Discarded => Step::Discarded,
        }
    }

    /// The task that the dispatch carries, where it carries one.
    pub open spec fn task(self) -> Option<Task> {
        match self {
            Dispatch::StartCoreWorker(t) => Some(t),
            Dispatch::ChannelFull(t, _) => Some(t),
            Dispatch::RestartWorker(_, t) => Some(t),
            Dispatch::StartWorker(t) => Some(t),
            Dispatch::RunInCaller(t) => Some(t),
            _ => None,
        }
    }
}

/// The result of an operation with its task left out.
pub open spec fn result_step(r: Result<Dispatch, TPError>) -> Result<Step, TPError> {
    match r {
        Ok(d) => Ok(d.step()),
        Err(e) => Err(e),
    }
}

/// The task that a result carries, where it carries one.
pub open spec fn carried_task(r: Result<Dispatch, TPError>) -> Option<Task> {
    match r {
        Ok(d) => d.task(),
        Err(_) => None,
    }
}

/// The kind of outcome of a non-blocking send.
pub enum SendResult {
    Sent,
    Full,
}

/// The state of a pool, as far as its decisions depend on it.
pub struct PoolView {
    /// The pool accepts no more tasks.
    pub closed: bool,
    /// The number of core workers started; `None` once `wait` took them.
    pub core_workers: Option<usize>,
    /// The number of non-core workers started; `None` once `wait` took them.
    pub workers: Option<usize>,
    /// The id that the next task will get.
    pub next_task_id: usize,
    pub channel_capacity: usize,
    pub core_pool_size: usize,
    pub max_pool_size: usize,
    pub rejected_task_handler: RejectedTaskHandler,
}

impl PoolView {
    /// What every pool keeps: its sizes are valid, it never has more core
    /// workers than `core_pool_size`, nor more non-core workers than
    /// `max_pool_size - core_pool_size`, and workers are only taken from a
    /// closed pool.
    pub open spec fn wf(self) -> bool {
        &&& 0 < self.core_pool_size <= self.max_pool_size <= self.channel_capacity
        &&& self.channel_capacity <= MAX_CHANNEL_CAPACITY
        &&& self.core_workers matches Some(n) ==> n <= self.core_pool_size
        &&& self.workers matches Some(n) ==> n <= self.max_pool_size - self.core_pool_size
        &&& self.core_workers is None ==> self.closed
        &&& self.workers is None ==> self.closed
    }

    /// The number of core workers (none once they were taken).
    pub open spec fn core_count(self) -> nat {
        match self.core_workers {
            Some(n) => n as nat,
            None => 0,
        }
    }

    /// A new task goes to a new core worker.
    pub open spec fn core_slot_free(self) -> bool {
        self.core_workers matches Some(n) && n < self.core_pool_size
    }

    /// The view with the task id counter moved on by one.
    pub open spec fn with_next_id(self) -> PoolView {
        PoolView { next_task_id: next_id(self.next_task_id), ..self }
    }
}

/// The id after `id`: ids wrap around as an atomic counter does.
pub open spec fn next_id(id: usize) -> usize {
    if id == usize::MAX {
        0
    } else {
        (id + 1) as usize
    }
}

/// A fresh pool built from a valid configuration.
pub open spec fn initial_view(c: PoolConfig) -> PoolView {
    PoolView {
        closed: false,
        core_workers: Some(0),
        workers: Some(0),
        next_task_id: 0,
        channel_capacity: c.channel_capacity,
        core_pool_size: c.core_pool_size,
        max_pool_size: c.max_pool_size,
        rejected_task_handler: c.rejected_task_handler,
    }
}

/// What `execute` does, given what the send into the channel came to
/// (which only matters where no core worker is started).
pub open spec fn execute_model(v: PoolView, send: SendResult) -> (PoolView, Result<Step, TPError>) {
    if v.closed {
        (v, Err(TPError::Closed))
    } else if v.core_slot_free() {
        (
            PoolView { core_workers: Some((v.core_count() + 1) as usize), ..v.with_next_id() },
            Ok(Step::StartCoreWorker),
        )
    } else {
        match send {
            SendResult::Sent => (v.with_next_id(), Ok(Step::Queued)),
            SendResult::Full => (v.with_next_id(), Ok(Step::ChannelFull)),
        }
    }
}

/// What a rejected task comes to under each handler.
pub open spec fn reject_model(h: RejectedTaskHandler) -> Result<Step, TPError> {
    match h {
        RejectedTaskHandler::Abort => Err(TPError::Abort),
        RejectedTaskHandler::Discard => Ok(Step::Discarded),
        RejectedTaskHandler::CallerRuns => Ok(Step::RunInCaller),
    }
}

/// `i` is the first index at which `finished` holds.
pub open spec fn is_first_finished(finished: Seq<bool>, i: int) -> bool {
    &&& 0 <= i < finished.len()
    &&& finished[i]
    &&& forall|j: int| 0 <= j < i ==> !finished[j]
}

/// The first finished worker, where one has finished.
pub open spec fn first_finished(finished: Seq<bool>) -> Option<int> {
    if exists|i: int| 0 <= i < finished.len() && finished[i] {
        Some(choose|i: int| is_first_finished(finished, i))
    } else {
        None
    }
}

/// No non-core worker has finished and the pool may still grow: a task
/// that finds the channel full gets a new non-core worker.
pub open spec fn grows_on_full(v: PoolView, finished: Seq<bool>) -> bool {
    &&& v.workers matches Some(n) && n < v.max_pool_size - v.core_pool_size
    &&& forall|j: int| 0 <= j < finished.len() ==> !finished[j]
}

/// What `process_task_if_channel_full` does, given which non-core workers
/// have finished: reuse the first finished one, else start a new one if the
/// pool may grow, else reject the task.
pub open spec fn full_model(v: PoolView, finished: Seq<bool>) -> (PoolView, Result<Step, TPError>) {
    match v.workers {
        None => (v, reject_model(v.rejected_task_handler)),
        Some(n) => match first_finished(finished) {
            Some(i) => (v, Ok(Step::RestartWorker(i))),
            None => if n < v.max_pool_size - v.core_pool_size {
                (PoolView { workers: Some((n + 1) as usize), ..v }, Ok(Step::StartWorker))
            } else {
                (v, reject_model(v.rejected_task_handler))
            },
        },
    }
}

/// The pool after `shutdown`.
pub open spec fn shutdown_model(v: PoolView) -> PoolView {
    PoolView { closed: true, ..v }
}

/// The pool after `wait`: closed, with its core workers taken.
pub open spec fn wait_model(v: PoolView) -> PoolView {
    PoolView { closed: true, core_workers: None, ..v }
}

/// The pool after `take_workers`: closed, with its non-core workers taken.
pub open spec fn take_workers_model(v: PoolView) -> PoolView {
    PoolView { closed: true, workers: None, ..v }
}

/// The number of workers that have not finished.
pub open spec fn count_running(finished: Seq<bool>) -> nat
    decreases finished.len(),
{
    if finished.len() == 0 {
        0
    } else {
        count_running(finished.drop_last()) + if finished.last() {
            0nat
        } else {
            1nat
        }
    }
}

/// The number of non-core workers that are running.
pub open spec fn running_workers(v: PoolView, finished: Seq<bool>) -> nat {
    match v.workers {
        Some(_) => count_running(finished),
        None => 0,
    }
}

/// The number of core workers that are running.
pub open spec fn running_core_workers(v: PoolView, core_finished: Seq<bool>) -> nat {
    match v.core_workers {
        Some(_) => count_running(core_finished),
        None => 0,
    }
}

/// The finished flags match the core workers of the pool.
pub open spec fn observes_core(v: PoolView, core_finished: Seq<bool>) -> bool {
    v.core_workers matches Some(n) ==> core_finished.len() == n
}

/// The finished flags match the non-core workers of the pool.
pub open spec fn observes(v: PoolView, finished: Seq<bool>) -> bool {
    v.workers matches Some(n) ==> finished.len() == n
}

/// The number of workers whose threads have not finished.
fn count_unfinished(finished: &Vec<bool>) -> (c: usize)
    ensures
        c == count_running(finished@),
        c <= finished.len(),
{
    let mut count: usize = 0;
    let mut i: usize = 0;
    while i < finished.len()
        invariant
            i <= finished.len(),
            count == count_running(finished@.subrange(0, i as int)),
            count <= i,
        decreases finished.len() - i,
    {
        proof {
            assert(finished@.subrange(0, i as int + 1).drop_last() == finished@.subrange(0, i as int));
        }
        if !finished[i] {
            count = count + 1;
        }
        i = i + 1;
    }
    proof {
        assert(finished@.subrange(0, finished@.len() as int) == finished@);
    }
    count
}

/// A thread pool's bookkeeping: its channel, how many workers it has
/// started, and the ids of its tasks.
pub struct ThreadPool {
    reciver: Receiver<Task>,
    sender: Option<Sender<Task>>,
    core_workers: Option<usize>,
    workers: Option<usize>,
    next_task_id: usize,
    channel_capacity: usize,
    core_pool_size: usize,
    max_pool_size: usize,
    keep_alive_time: Duration,
    rejected_task_handler: RejectedTaskHandler,
    task_lisenters: Arc<TaskListeners>,
}

impl View for ThreadPool {
    type V = PoolView;

    closed spec fn view(&self) -> PoolView {
        PoolView {
            closed: self.sender is None,
            core_workers: self.core_workers,
            workers: self.workers,
            next_task_id: self.next_task_id,
            channel_capacity: self.channel_capacity,
            core_pool_size: self.core_pool_size,
            max_pool_size: self.max_pool_size,
            rejected_task_handler: self.rejected_task_handler,
        }
    }
}

impl ThreadPool {
    /// The pool is well formed: its view keeps [`PoolView::wf`], its
    /// channel has the capacity it was built with, and its sender and its
    /// receiver are the two ends of that one channel.
    #[verifier::type_invariant]
    pub closed spec fn wf(&self) -> bool {
        &&& self@.wf()
        &&& self.sender matches Some(s) ==> sender_capacity(s) == Some(self.channel_capacity)
        &&& receiver_capacity(self.reciver) == Some(self.channel_capacity)
        &&& self.sender matches Some(s) ==> sender_channel(s) == receiver_channel(self.reciver)
    }

    /// The time that non-core workers may stay idle.
    pub closed spec fn keep_alive(&self) -> Duration {
        self.keep_alive_time
    }

    /// The pool's channel: the one that its sender sends into and that
    /// every receiver it hands out belongs to.
    pub closed spec fn channel(&self) -> int {
        receiver_channel(self.reciver)
    }

    /// The hooks that every task of the pool carries.
    pub closed spec fn hooks(&self) -> Arc<TaskListeners> {
        self.task_lisenters
    }

    /// The channel that the pool's sender sends into; `None` once closed.
    pub closed spec fn sending_channel(&self) -> Option<int> {
        match self.sender {
            Some(s) => Some(sender_channel(s)),
            None => None,
        }
    }

    /// The pool's sender and its receivers share one channel: while the pool
    /// is open, its sender sends into the channel that every receiver from
    /// [`ThreadPool::receiver`] belongs to. (That a queued task was sent into
    /// that channel is the receipt that `execute` hands back.)
    pub proof fn law_sender_feeds_the_pool_channel(&self)
        requires
            self.wf(),
            !self@.closed,
        ensures
            self.sending_channel() == Some(self.channel()),
    {
    }

    /// A well-formed pool has a well-formed view, so the laws over views
    /// apply to it.
    pub proof fn lemma_wf(&self)
        requires
            self.wf(),
        ensures
            self@.wf(),
    {
    }

    /// Builds a pool from a configuration that has passed its checks.
    pub(crate) fn from_builder(builder: ThreadPoolBuilder) -> (p: Self)
        requires
            valid_config(builder@),
            builder@.channel_capacity <= MAX_CHANNEL_CAPACITY,
        ensures
            p.wf(),
            p@ == initial_view(builder@),
            p.keep_alive() == builder.keep_alive(),
            *p.hooks() === builder.listeners(),
    {
        let (channel_capacity, max_pool_size, core_pool_size, keep_alive_time, handler, listeners) =
            builder.into_parts();
        let (sender, reciver) = bounded_channel(channel_capacity);
        Self {
            reciver,
            sender: Some(sender),
            core_workers: Some(0),
            workers: Some(0),
            next_task_id: 0,
            channel_capacity,
            core_pool_size,
            max_pool_size,
            keep_alive_time,
            rejected_task_handler: handler,
            task_lisenters: Arc::new(listeners),
        }
    }

    /// Submits a task. A closed pool refuses it with [`TPError::Closed`].
    /// Otherwise the task gets the next id and goes to a new core worker
    /// while the pool has fewer than `core_pool_size` of them, else into the
    /// channel; where the channel is full the caller is asked to look at the
    /// non-core workers ([`Dispatch::ChannelFull`]).
    pub fn execute(&mut self, task_fn: TaskFn) -> (r: Result<Dispatch, TPError>)
        ensures
            final(self).wf(),
            exists|o: SendResult| #[trigger]
                execute_model(old(self)@, o) == (final(self)@, result_step(r)),
            final(self).keep_alive() == old(self).keep_alive(),
            final(self).hooks() == old(self).hooks(),
            final(self).channel() == old(self).channel(),
            carried_task(r) matches Some(t) ==> t.task_id() == old(self)@.next_task_id && t.hooks()
                == old(self).hooks() && t.body() === task_fn,
            r matches Ok(Dispatch::Queued(rc)) ==> rc.sent_id() == old(self)@.next_task_id
                && rc.sent_into() == old(self).channel(),
            r matches Ok(Dispatch::ChannelFull(t, f)) ==> f.refused_id() == t.task_id()
                && f.refused_by() == old(self).channel(),
    {
        proof {
            use_type_invariant(&*self);
        }
        if self.is_closed() {
            proof {
                assert(execute_model(old(self)@, SendResult::Sent) == (self@, result_step(Err(TPError::Closed))));
            }
            return Err(TPError::Closed);
        }
        let task = self.create_task(task_fn);
        if let Some(n) = self.core_workers {
            if n < self.core_pool_size {
                self.core_workers = Some(n + 1);
                let r = Ok(Dispatch::StartCoreWorker(task));
                proof {
                    assert(execute_model(old(self)@, SendResult::Sent) == (self@, result_step(r)));
                }
                return r;
            }
        }
        let r = self.send_task(task);
        proof {
            let o = match r {
                Ok(Dispatch::Queued(_)) => SendResult::Sent,
                _ => SendResult::Full,
            };
            assert(execute_model(old(self)@, o) == (self@, result_step(r)));
        }
        r
    }

    /// The channel is full: reuses the first non-core worker that has
    /// finished, else starts a new non-core worker while the pool has fewer
    /// than `max_pool_size - core_pool_size` of them, else rejects the task.
    /// `finished` tells, for each non-core worker in the order in which they
    /// were started, whether its thread has finished. Where `wait` has taken
    /// the workers, the task is rejected.
    pub fn process_task_if_channel_full(&mut self, task: Task, finished: &Vec<bool>) -> (r: Result<
        Dispatch,
        TPError,
    >)
        requires
            observes(old(self)@, finished@),
        ensures
            final(self).wf(),
            full_model(old(self)@, finished@) == (final(self)@, result_step(r)),
            final(self).keep_alive() == old(self).keep_alive(),
            final(self).hooks() == old(self).hooks(),
            final(self).channel() == old(self).channel(),
            carried_task(r) matches Some(t) ==> t == task,
            r matches Ok(Dispatch::RestartWorker(i, _)) ==> i < finished.len() && finished@[i as int]
                && final(self)@ == old(self)@,
            grows_on_full(old(self)@, finished@) ==> (r matches Ok(Dispatch::StartWorker(_))
                && final(self)@.workers == Some((old(self)@.workers->0 + 1) as usize)),
    {
        proof {
            use_type_invariant(&*self);
        }
        let n: usize = match self.workers {
            None => {
                return self.reject(task);
            },
            Some(n) => n,
        };
        let mut i: usize = 0;
        while i < finished.len()
            invariant
                i <= finished.len(),
                forall|j: int| 0 <= j < i ==> !finished@[j],
                self.wf(),
                self@ == old(self)@,
                self.keep_alive() == old(self).keep_alive(),
                self.hooks() == old(self).hooks(),
                self@.workers == Some(n),
                observes(self@, finished@),
            decreases finished.len() - i,
        {
            if finished[i] {
                proof {
                    assert(is_first_finished(finished@, i as int));
                    let c = choose|k: int| is_first_finished(finished@, k);
                    assert(is_first_finished(finished@, c));
                    assert(c == i as int);
                }
                return Ok(Dispatch::RestartWorker(i, task));
            }
            i = i + 1;
        }
        assert(first_finished(finished@) is None);
        if n < self.max_pool_size - self.core_pool_size {
            self.workers = Some(n + 1);
            Ok(Dispatch::StartWorker(task))
        } else {
            self.reject(task)
        }
    }

    /// Handles a rejected task as the pool's [`RejectedTaskHandler`] says:
    /// [`TPError::Abort`], the task dropped, or the task handed back to run
    /// in the caller's thread.
    pub fn reject(&self, task: Task) -> (r: Result<Dispatch, TPError>)
        ensures
            result_step(r) == reject_model(self@.rejected_task_handler),
            carried_task(r) matches Some(t) ==> t == task,
    {
        match self.rejected_task_handler {
            RejectedTaskHandler::Abort => Err(TPError::Abort),
            RejectedTaskHandler::CallerRuns => Ok(Dispatch::RunInCaller(task)),
            RejectedTaskHandler::Discard => Ok(Dispatch::Discarded),
        }
    }

    /// Counts the worker threads that have not finished, core and non-core.
    /// `core_finished` and `finished` tell, for each core and each non-core
    /// worker in the order in which they were started, whether its thread
    /// has finished.
    pub fn active_count(&self, core_finished: &Vec<bool>, finished: &Vec<bool>) -> (c: usize)
        requires
            observes_core(self@, core_finished@),
            observes(self@, finished@),
        ensures
            c == running_core_workers(self@, core_finished@) + running_workers(self@, finished@),
            c <= self@.core_count() + (match self@.workers {
                Some(n) => n as nat,
                None => 0nat,
            }),
            c <= self@.max_pool_size,
    {
        proof {
            use_type_invariant(&*self);
        }
        let active: usize = self.num_of_active_workers(finished);
        let core: usize = if self.core_workers.is_some() {
            count_unfinished(core_finished)
        } else {
            0
        };
        active + core
    }

    /// The number of core workers.
    pub fn num_of_core_workers(&self) -> (c: usize)
        ensures
            c == self@.core_count(),
            c <= self@.core_pool_size,
    {
        proof {
            use_type_invariant(&*self);
        }
        match self.core_workers {
            Some(n) => n,
            None => 0,
        }
    }

    /// The number of non-core workers whose threads have not finished.
    pub fn num_of_active_workers(&self, finished: &Vec<bool>) -> (c: usize)
        requires
            observes(self@, finished@),
        ensures
            c == running_workers(self@, finished@),
            c <= (match self@.workers {
                Some(n) => n as nat,
                None => 0nat,
            }),
            c <= self@.max_pool_size - self@.core_pool_size,
    {
        proof {
            use_type_invariant(&*self);
        }
        if self.workers.is_none() {
            return 0;
        }
        count_unfinished(finished)
    }

    /// Closes the pool: it accepts no more tasks, but its workers still run
    /// what is in the channel.
    pub fn shutdown(&mut self)
        ensures
            final(self).wf(),
            final(self)@ == shutdown_model(old(self)@),
            final(self).keep_alive() == old(self).keep_alive(),
            final(self).hooks() == old(self).hooks(),
            final(self).channel() == old(self).channel(),
    {
        proof {
            use_type_invariant(&*self);
        }
        self.sender = None;
    }

    /// Returns `true` if the pool is closed.
    pub fn is_closed(&self) -> (b: bool)
        ensures
            b == self@.closed,
    {
        self.sender.is_none()
    }

    /// Closes the pool and takes its core workers, so that the caller can
    /// wait for their threads: returns how many there were, `None` where an
    /// earlier `wait` took them. The non-core workers stay in the pool until
    /// [`ThreadPool::take_workers`]: the caller takes them once every core
    /// worker has been joined without a panic.
    pub fn wait(&mut self) -> (r: Option<usize>)
        ensures
            final(self).wf(),
            final(self)@ == wait_model(old(self)@),
            r == old(self)@.core_workers,
            final(self).keep_alive() == old(self).keep_alive(),
            final(self).hooks() == old(self).hooks(),
            final(self).channel() == old(self).channel(),
    {
        proof {
            use_type_invariant(&*self);
        }
        self.shutdown();
        let core: Option<usize> = self.core_workers;
        self.core_workers = None;
        core
    }

    /// Closes the pool and takes its non-core workers, so that the caller
    /// can wait for their threads: returns how many there were, `None` where
    /// they were taken before.
    pub fn take_workers(&mut self) -> (r: Option<usize>)
        ensures
            final(self).wf(),
            final(self)@ == take_workers_model(old(self)@),
            r == old(self)@.workers,
            final(self).keep_alive() == old(self).keep_alive(),
            final(self).hooks() == old(self).hooks(),
            final(self).channel() == old(self).channel(),
    {
        proof {
            use_type_invariant(&*self);
        }
        self.shutdown();
        let workers: Option<usize> = self.workers;
        self.workers = None;
        workers
    }

    /// The time that non-core workers may stay idle.
    pub fn keep_alive_time(&self) -> (d: Duration)
        ensures
            d == self.keep_alive(),
    {
        self.keep_alive_time
    }

    /// Another receiver of the pool's channel, for a new worker: it reports
    /// the capacity that the pool's channel was built with.
    pub fn receiver(&self) -> (r: Receiver<Task>)
        ensures
            receiver_capacity(r) == Some(self@.channel_capacity),
            receiver_channel(r) == self.channel(),
    {
        proof {
            use_type_invariant(&*self);
        }
        clone_receiver(&self.reciver)
    }

    /// Gives a task the next id and moves the counter on.
    fn create_task(&mut self, task_fn: TaskFn) -> (t: Task)
        ensures
            final(self).wf(),
            final(self)@ == old(self)@.with_next_id(),
            final(self).keep_alive() == old(self).keep_alive(),
            final(self).hooks() == old(self).hooks(),
            final(self).channel() == old(self).channel(),
            t.task_id() == old(self)@.next_task_id,
            t.hooks() == old(self).hooks(),
            t.body() === task_fn,
    {
        proof {
            use_type_invariant(&*self);
        }
        let id: usize = self.next_task_id;
        self.next_task_id = if id == usize::MAX {
            0
        } else {
            id + 1
        };
        Task::create(id, task_fn, self.clone_listeners())
    }

    fn clone_listeners(&self) -> (l: Arc<TaskListeners>)
        ensures
            l == self.task_lisenters,
    {
        self.task_lisenters.clone()
    }

    /// Sends a task into the channel without blocking; what the send came to
    /// decides the rest.
    fn send_task(&self, task: Task) -> (r: Result<Dispatch, TPError>)
        ensures
            match r {
                Ok(Dispatch::Queued(rc)) => !self@.closed && rc.sent_id() == task.task_id()
                    && self.sending_channel() == Some(rc.sent_into()),
                Ok(Dispatch::ChannelFull(t, f)) => !self@.closed && t == task && f.refused_id()
                    == task.task_id() && self.sending_channel() == Some(f.refused_by()),
                Err(e) => e == TPError::Closed && self@.closed,
                _ => false,
            },
    {
        proof {
            use_type_invariant(&*self);
        }
        match &self.sender {
            None => Err(TPError::Closed),
            Some(sender) => {
                let id: usize = task.id();
                Self::dispatch_send_outcome(try_send(sender, task, id, &self.reciver))
            },
        }
    }

    /// Turns the outcome of a send into what the caller is to do: nothing
    /// where the task is in the channel, look at the workers where the
    /// channel is full, and [`TPError::Closed`] where the channel is gone.
    pub fn dispatch_send_outcome(outcome: SendOutcome) -> (r: Result<Dispatch, TPError>)
        ensures
            match outcome {
                SendOutcome::Sent(rc) => r matches Ok(Dispatch::Queued(q)) && q == rc,
                SendOutcome::Full(t, f) => r matches Ok(Dispatch::ChannelFull(u, g)) && u == t && g == f,
                SendOutcome::Disconnected(_) => r == Err::<Dispatch, TPError>(TPError::Closed),
            },
    {
        match outcome {
            SendOutcome::Sent(rc) => Ok(Dispatch::Queued(rc)),
            SendOutcome::Full(t, f) => Ok(Dispatch::ChannelFull(t, f)),
            SendOutcome::Disconnected(_) => Err(TPError::Closed),
        }
    }
}

} // verus!
