use std::sync::Arc;
use vstd::prelude::*;

verus! {

/// The body of a submitted task, run once by the worker that takes it.
pub trait TaskBody: Send {
    fn call(self: Box<Self>);
}

/// A function told the id of each task, before or after the task runs.
pub trait TaskListener: Send + Sync {
    fn notify(&self, id: usize);
}

/// A hook, as a pool holds it.
pub struct ListenerFn(pub Box<dyn TaskListener>);

/// The two hooks that surround the run of every task of a pool; `None` is
/// a hook that does nothing.
pub struct TaskListeners {
    pub before_execute: Option<ListenerFn>,
    pub after_execute: Option<ListenerFn>,
}

impl TaskListeners {
    /// Two hooks that do nothing.
    pub fn ignore_all() -> (l: TaskListeners)
        ensures
            l.before_execute is None,
            l.after_execute is None,
    {
        TaskListeners { before_execute: None, after_execute: None }
    }
}

/// The body of a task, as a task holds it.
pub struct TaskFn(pub Box<dyn TaskBody>);

/// A submitted task: its id, its body and the hooks of its pool.
pub struct Task {
    id: usize,
    task_fn: TaskFn,
    listeners: Arc<TaskListeners>,
}

impl Task {
    /// The id that the pool gave the task.
    pub closed spec fn task_id(&self) -> usize {
        self.id
    }

    /// The body of the task.
    pub closed spec fn body(&self) -> TaskFn {
        self.task_fn
    }

    /// The hooks that surround the run of the task.
    pub closed spec fn hooks(&self) -> Arc<TaskListeners> {
        self.listeners
    }

    pub fn create(id: usize, task_fn: TaskFn, listeners: Arc<TaskListeners>) -> (t: Self)
        ensures
            t.task_id() == id,
            t.body() === task_fn,
            t.hooks() == listeners,
    {
        Self { id, task_fn, listeners }
    }

    /// The id that the pool gave the task.
    pub fn id(&self) -> (id: usize)
        ensures
            id == self.task_id(),
    {
        self.id
    }

    /// Tells the `before_execute` hook the task's id, runs the body, then
    /// tells the `after_execute` hook the same id.
    pub fn run(self) {
        let listeners = self.listeners;
        if let Some(hook) = &listeners.before_execute {
            hook.0.notify(self.id);
        }
        self.task_fn.0.call();
        if let Some(hook) = &listeners.after_execute {
            hook.0.notify(self.id);
        }
    }
}

} // verus!
