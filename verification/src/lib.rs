//! A thread pool in the manner of Java's `ThreadPoolExecutor`: a bounded
//! task channel, a set of core workers that live as long as the pool, and
//! non-core workers that are started when the channel is full.
//!
//! This crate holds the pool's bookkeeping and every decision it takes on a
//! submitted task; the worker threads themselves are run by the caller, who
//! performs the [`Dispatch`] that each decision hands back.

mod builder;
mod channel;
mod laws;
mod task;
mod thread_pool;

pub use channel::{
    Refusal, SendReceipt, receiver_capacity, sender_capacity, ExReceiver, ExSender, SendOutcome, MAX_CHANNEL_CAPACITY,
};
pub use task::{ListenerFn, Task, TaskFn, TaskBody, TaskListener, TaskListeners};
pub use builder::{
    argument_error, default_config, is_default_for, with_after, with_before, with_core_pool_size, with_max_pool_size, lemma_argument_error_iff_invalid, duration_from_secs, valid_config, InvalidArgument, PoolConfig,
    TPBuilderError, ThreadPoolBuilder,
};
pub use thread_pool::{
    carried_task, count_running, execute_model, first_finished, full_model, grows_on_full, initial_view, is_first_finished,
    next_id, observes, observes_core, reject_model, result_step, running_core_workers, running_workers, shutdown_model, take_workers_model, wait_model,
    Dispatch, PoolView, RejectedTaskHandler, SendResult, Step, TPError, ThreadPool,
};
pub use laws::{
    id_after, law_closed_pool_refuses, law_closed_stays_closed, law_core_workers_first,
    law_default_config_valid, law_execute_advances_id, law_full_pool_rejects,
    law_active_count_counts_started_unfinished, law_closing_operations_change_little,
    law_count_running_counts_unfinished, law_default_config_sizes, law_default_is_unique,
    law_full_channel_grows_the_pool, law_new_pool_is_empty, law_restart_only_finished_workers,
    law_setters_change_one_field, unfinished, law_idle_worker_reused, law_last_listener_wins, law_setters_commute, law_operations_keep_wf, law_rejected_only_at_limit, law_shutdown_then_execute_refused,
    law_task_ids_distinct, law_worker_bound,
};
