use crate::channel::MAX_CHANNEL_CAPACITY;
use crate::task::{ListenerFn, TaskListeners};
use crate::thread_pool::{initial_view, RejectedTaskHandler, ThreadPool};
use std::time::Duration;
use vstd::prelude::*;

verus! {

/// Why a configuration was refused.
#[derive(Clone, Copy, Debug, PartialEq, Eq, Structural)]
pub enum InvalidArgument {
    /// The channel cannot hold as many tasks as there may be workers.
    ChannelBelowMaxPoolSize { channel_capacity: usize, max_pool_size: usize },
    /// There may be more core workers than workers.
    MaxPoolBelowCorePoolSize { max_pool_size: usize, core_pool_size: usize },
    /// A pool needs at least one core worker.
    ZeroCorePoolSize,
}

/// An error returned from [`ThreadPoolBuilder::build`].
#[derive(Debug)]
pub struct TPBuilderError {
    pub reason: InvalidArgument,
}

/// The plain values of a configuration.
#[derive(Clone, Copy, Debug, PartialEq, Eq)]
pub struct PoolConfig {
    pub channel_capacity: usize,
    pub max_pool_size: usize,
    pub core_pool_size: usize,
    pub rejected_task_handler: RejectedTaskHandler,
}

/// The first argument that a configuration breaks, in the order in which
/// they are checked, or `None` where it has none.
pub open spec fn argument_error(c: PoolConfig) -> Option<InvalidArgument> {
    if c.channel_capacity < c.max_pool_size {
        Some(
            InvalidArgument::ChannelBelowMaxPoolSize {
                channel_capacity: c.channel_capacity,
                max_pool_size: c.max_pool_size,
            },
        )
    } else if c.max_pool_size < c.core_pool_size {
        Some(
            InvalidArgument::MaxPoolBelowCorePoolSize {
                max_pool_size: c.max_pool_size,
                core_pool_size: c.core_pool_size,
            },
        )
    } else if c.core_pool_size == 0 {
        Some(InvalidArgument::ZeroCorePoolSize)
    } else {
        None
    }
}

/// A configuration that a pool can be built from:
/// `0 < core_pool_size <= max_pool_size <= channel_capacity`.
pub open spec fn valid_config(c: PoolConfig) -> bool {
    0 < c.core_pool_size <= c.max_pool_size <= c.channel_capacity
}

/// A configuration passes the checks exactly where it is valid.
pub proof fn lemma_argument_error_iff_invalid(c: PoolConfig)
    ensures
        argument_error(c) is None <==> valid_config(c),
{
}

/// The configuration with `max_pool_size` replaced.
pub open spec fn with_max_pool_size(c: PoolConfig, size: usize) -> PoolConfig {
    PoolConfig { max_pool_size: size, ..c }
}

/// The configuration with `core_pool_size` replaced.
pub open spec fn with_core_pool_size(c: PoolConfig, size: usize) -> PoolConfig {
    PoolConfig { core_pool_size: size, ..c }
}

/// The hooks with the before-hook replaced.
pub open spec fn with_before(l: TaskListeners, h: Option<ListenerFn>) -> TaskListeners {
    TaskListeners { before_execute: h, after_execute: l.after_execute }
}

/// The hooks with the after-hook replaced.
pub open spec fn with_after(l: TaskListeners, h: Option<ListenerFn>) -> TaskListeners {
    TaskListeners { before_execute: l.before_execute, after_execute: h }
}

/// The default configuration on a machine with `cpus` physical cores.
pub open spec fn default_config(cpus: usize) -> PoolConfig {
    PoolConfig {
        channel_capacity: 1000,
        max_pool_size: cpus,
        core_pool_size: if cpus / 2 < 1 { 1 } else { cpus / 2 },
        rejected_task_handler: RejectedTaskHandler::Abort,
    }
}

/// What `std::time::Duration::from_secs` returns.
pub uninterp spec fn duration_from_secs(secs: u64) -> Duration;

/// Calls `std::time::Duration::from_secs`: a duration of `secs` whole
/// seconds. The contract names the result and claims nothing more.
#[verifier::external_body]
fn seconds(n: u64) -> (d: Duration)
    ensures
        d == duration_from_secs(n),
{
    Duration::from_secs(n)
}

/// Calls `num_cpus::get_physical`: the number of physical cores of the
/// machine. The contract claims what the crate documents, that it is at
/// least one; the number itself depends on the machine.
#[verifier::external_body]
fn physical_cpus() -> (n: usize)
    ensures
        n >= 1,
{
    num_cpus::get_physical()
}

/// A builder of the [`ThreadPool`], which can be used to configure the
/// properties of a new thread pool.
pub struct ThreadPoolBuilder {
    channel_capacity: usize,
    max_pool_size: usize,
    core_pool_size: usize,
    keep_alive_time: Duration,
    rejected_task_handler: RejectedTaskHandler,
    task_lisenters: TaskListeners,
}

impl View for ThreadPoolBuilder {
    type V = PoolConfig;

    closed spec fn view(&self) -> PoolConfig {
        PoolConfig {
            channel_capacity: self.channel_capacity,
            max_pool_size: self.max_pool_size,
            core_pool_size: self.core_pool_size,
            rejected_task_handler: self.rejected_task_handler,
        }
    }
}

impl Default for ThreadPoolBuilder {
    /// Creates a new builder with the default configuration for the machine:
    /// see [`ThreadPoolBuilder::with_physical_cpus`].
    fn default() -> (b: Self)
        ensures
            b@.max_pool_size >= 1,
            is_default_for(b, b@.max_pool_size),
    {
        Self::with_physical_cpus(physical_cpus())
    }
}

/// The builder holds the default configuration of a machine with `cpus`
/// physical cores: a channel of 1000 tasks, `cpus` workers of which half (at
/// least one) are core workers, a keep-alive time of one second,
/// [`RejectedTaskHandler::Abort`] and hooks that do nothing.
pub open spec fn is_default_for(b: ThreadPoolBuilder, cpus: usize) -> bool {
    &&& b@ == default_config(cpus)
    &&& b.keep_alive() == duration_from_secs(1)
    &&& b.listeners().before_execute is None
    &&& b.listeners().after_execute is None
}

impl ThreadPoolBuilder {
    /// The time that non-core workers may stay idle.
    pub closed spec fn keep_alive(&self) -> Duration {
        self.keep_alive_time
    }

    /// The hooks that the pool's tasks will carry.
    pub closed spec fn listeners(&self) -> TaskListeners {
        self.task_lisenters
    }

    /// The default configuration of a machine with `cpus` physical cores: a
    /// channel of 1000 tasks, `cpus` workers of which half (at least one)
    /// are core workers, a keep-alive time of one second,
    /// [`RejectedTaskHandler::Abort`] and hooks that do nothing.
    pub fn with_physical_cpus(cpus: usize) -> (b: Self)
        requires
            cpus >= 1,
        ensures
            b@ == default_config(cpus),
            b.keep_alive() == duration_from_secs(1),
            b.listeners().before_execute is None,
            b.listeners().after_execute is None,
    {
        let core: usize = if cpus / 2 < 1 { 1 } else { cpus / 2 };
        Self {
            channel_capacity: 1000,
            max_pool_size: cpus,
            core_pool_size: core,
            keep_alive_time: seconds(1),
            rejected_task_handler: RejectedTaskHandler::Abort,
            task_lisenters: TaskListeners::ignore_all(),
        }
    }

    /// Creates the base configuration for the new thread pool: the same
    /// default configuration as [`ThreadPoolBuilder::default`].
    pub fn new() -> (b: Self)
        ensures
            b@.max_pool_size >= 1,
            is_default_for(b, b@.max_pool_size),
    {
        Self::default()
    }

    /// Sets the capacity of the bounded task channel.
    pub fn channel_capacity(self, capacity: usize) -> (b: Self)
        ensures
            b@ == (PoolConfig { channel_capacity: capacity, ..self@ }),
            b.keep_alive() == self.keep_alive(),
            b.listeners() === self.listeners(),
    {
        let mut b = self;
        b.channel_capacity = capacity;
        b
    }

    /// Sets the maximum allowed number of threads.
    pub fn max_pool_size(self, size: usize) -> (b: Self)
        ensures
            b@ == with_max_pool_size(self@, size),
            b.keep_alive() == self.keep_alive(),
            b.listeners() === self.listeners(),
    {
        let mut b = self;
        b.max_pool_size = size;
        b
    }

    /// Sets the number of core threads.
    pub fn core_pool_size(self, size: usize) -> (b: Self)
        ensures
            b@ == with_core_pool_size(self@, size),
            b.keep_alive() == self.keep_alive(),
            b.listeners() === self.listeners(),
    {
        let mut b = self;
        b.core_pool_size = size;
        b
    }

    /// Sets the time that non-core threads may remain idle.
    pub fn keep_alive_time(self, time: Duration) -> (b: Self)
        ensures
            b@ == self@,
            b.keep_alive() == time,
            b.listeners() === self.listeners(),
    {
        let mut b = self;
        b.keep_alive_time = time;
        b
    }

    /// Sets the policy to handle rejected tasks: a task is rejected when the
    /// channel is full and the pool has as many workers as it may have.
    pub fn rejected_handler(self, handler: RejectedTaskHandler) -> (b: Self)
        ensures
            b@ == (PoolConfig { rejected_task_handler: handler, ..self@ }),
            b.keep_alive() == self.keep_alive(),
            b.listeners() === self.listeners(),
    {
        let mut b = self;
        b.rejected_task_handler = handler;
        b
    }

    /// Sets the listener that is told a task's id before the task runs.
    pub fn lisenter_before_execute(self, executor: ListenerFn) -> (b: Self)
        ensures
            b@ == self@,
            b.keep_alive() == self.keep_alive(),
            b.listeners() === with_before(self.listeners(), Some(executor)),
    {
        let mut b = self;
        b.task_lisenters.before_execute = Some(executor);
        b
    }

    /// Sets the listener that is told a task's id after the task has run.
    pub fn lisenter_after_execute(self, executor: ListenerFn) -> (b: Self)
        ensures
            b@ == self@,
            b.keep_alive() == self.keep_alive(),
            b.listeners() === with_after(self.listeners(), Some(executor)),
    {
        let mut b = self;
        b.task_lisenters.after_execute = Some(executor);
        b
    }

    /// Creates a thread pool with the arguments, or says which argument is
    /// invalid (see [`ThreadPoolBuilder::check_arguments`]).
    pub fn build(self) -> (r: Result<ThreadPool, TPBuilderError>)
        requires
            valid_config(self@) ==> self@.channel_capacity <= MAX_CHANNEL_CAPACITY,
        ensures
            match r {
                Ok(p) => {
                    &&& argument_error(self@) is None
                    &&& p.wf()
                    &&& p@ == initial_view(self@)
                    &&& p.keep_alive() == self.keep_alive()
                    &&& *p.hooks() === self.listeners()
                },
                Err(e) => argument_error(self@) == Some(e.reason),
            },
    {
        match self.check_arguments() {
            Err(e) => Err(e),
            Ok(()) => Ok(ThreadPool::from_builder(self)),
        }
    }

    /// The plain values of the configuration.
    pub fn config(&self) -> (c: PoolConfig)
        ensures
            c == self@,
    {
        PoolConfig {
            channel_capacity: self.channel_capacity,
            max_pool_size: self.max_pool_size,
            core_pool_size: self.core_pool_size,
            rejected_task_handler: self.rejected_task_handler,
        }
    }

    /// Takes the builder apart for the pool that is built from it.
    pub(crate) fn into_parts(self) -> (r: (usize, usize, usize, Duration, RejectedTaskHandler, TaskListeners))
        ensures
            r.0 == self@.channel_capacity,
            r.1 == self@.max_pool_size,
            r.2 == self@.core_pool_size,
            r.3 == self.keep_alive(),
            r.4 == self@.rejected_task_handler,
            r.5 === self.listeners(),
    {
        (
            self.channel_capacity,
            self.max_pool_size,
            self.core_pool_size,
            self.keep_alive_time,
            self.rejected_task_handler,
            self.task_lisenters,
        )
    }

    /// Checks the arguments in order: the channel must hold at least
    /// `max_pool_size` tasks, `max_pool_size` must be at least
    /// `core_pool_size`, and `core_pool_size` must not be zero.
    pub fn check_arguments(&self) -> (r: Result<(), TPBuilderError>)
        ensures
            match r {
                Ok(()) => argument_error(self@) is None,
                Err(e) => argument_error(self@) == Some(e.reason),
            },
    {
        if self.channel_capacity < self.max_pool_size {
            return Err(
                TPBuilderError {
                    reason: InvalidArgument::ChannelBelowMaxPoolSize {
                        channel_capacity: self.channel_capacity,
                        max_pool_size: self.max_pool_size,
                    },
                },
            );
        }
        if self.max_pool_size < self.core_pool_size {
            return Err(
                TPBuilderError {
                    reason: InvalidArgument::MaxPoolBelowCorePoolSize {
                        max_pool_size: self.max_pool_size,
                        core_pool_size: self.core_pool_size,
                    },
                },
            );
        }
        if self.core_pool_size == 0 {
            return Err(TPBuilderError { reason: InvalidArgument::ZeroCorePoolSize });
        }
        Ok(())
    }
}

} // verus!
