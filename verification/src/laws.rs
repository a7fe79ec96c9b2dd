use crate::builder::{
    default_config, is_default_for, valid_config, with_after, with_before, with_core_pool_size,
    with_max_pool_size, PoolConfig,
    ThreadPoolBuilder,
};
use crate::task::{ListenerFn, TaskListeners};
use crate::channel::MAX_CHANNEL_CAPACITY;
use crate::thread_pool::{
    count_running, execute_model, first_finished, full_model, initial_view, is_first_finished,
    next_id, observes, observes_core, reject_model, running_core_workers, running_workers, shutdown_model, take_workers_model, wait_model, PoolView,
    SendResult, Step, TPError,
};
use vstd::prelude::*;

verus! {

/// A closed pool refuses every task with `Closed` and stays as it is,
/// whatever the channel would have done.
pub proof fn law_closed_pool_refuses(v: PoolView, o: SendResult)
    requires
        v.closed,
    ensures
        execute_model(v, o) == (v, Err::<Step, TPError>(TPError::Closed)),
{
}

/// After `shutdown`, `wait` or `take_workers`, every task is refused with
/// `Closed`.
pub proof fn law_shutdown_then_execute_refused(v: PoolView, o: SendResult)
    ensures
        execute_model(shutdown_model(v), o) == (shutdown_model(v), Err::<Step, TPError>(TPError::Closed)),
        execute_model(wait_model(v), o) == (wait_model(v), Err::<Step, TPError>(TPError::Closed)),
        execute_model(take_workers_model(v), o) == (
            take_workers_model(v),
            Err::<Step, TPError>(TPError::Closed),
        ),
{
}

/// A closed pool never opens again: no operation takes it back.
pub proof fn law_closed_stays_closed(v: PoolView, o: SendResult, finished: Seq<bool>)
    requires
        v.closed,
    ensures
        execute_model(v, o).0.closed,
        full_model(v, finished).0.closed,
        shutdown_model(v).closed,
        wait_model(v).closed,
        take_workers_model(v).closed,
{
}

/// A pool built from a valid configuration is well formed, and every
/// operation keeps it so: it never has more than `core_pool_size` core
/// workers nor more than `max_pool_size - core_pool_size` non-core workers.
pub proof fn law_operations_keep_wf(c: PoolConfig, v: PoolView, o: SendResult, finished: Seq<bool>)
    requires
        v.wf(),
    ensures
        valid_config(c) && c.channel_capacity <= MAX_CHANNEL_CAPACITY ==> initial_view(c).wf(),
        execute_model(v, o).0.wf(),
        full_model(v, finished).0.wf(),
        shutdown_model(v).wf(),
        wait_model(v).wf(),
        take_workers_model(v).wf(),
{
}

/// A well-formed pool never has more than `max_pool_size` workers, and never
/// counts more active workers than that.
pub proof fn law_worker_bound(v: PoolView, core_finished: Seq<bool>, finished: Seq<bool>)
    requires
        v.wf(),
        observes_core(v, core_finished),
        observes(v, finished),
    ensures
        v.core_count() + (match v.workers {
            Some(n) => n as nat,
            None => 0nat,
        }) <= v.max_pool_size,
        running_core_workers(v, core_finished) + running_workers(v, finished) <= v.max_pool_size,
{
    lemma_count_running_le_len(core_finished);
    lemma_count_running_le_len(finished);
}

proof fn lemma_count_running_le_len(finished: Seq<bool>)
    ensures
        count_running(finished) <= finished.len(),
    decreases finished.len(),
{
    if finished.len() > 0 {
        lemma_count_running_le_len(finished.drop_last());
    }
}

/// Core workers come first: while the pool has fewer than `core_pool_size`
/// of them, an open pool starts a core worker for each task, whatever the
/// channel would do; a task only reaches the channel once they are all
/// started.
pub proof fn law_core_workers_first(v: PoolView, o: SendResult)
    requires
        !v.closed,
    ensures
        v.core_slot_free() ==> execute_model(v, o).1 == Ok::<Step, TPError>(Step::StartCoreWorker)
            && execute_model(v, o).0.core_count() == v.core_count() + 1,
        execute_model(v, o).1 != Ok::<Step, TPError>(Step::StartCoreWorker) ==> !v.core_slot_free()
            && execute_model(v, o).0.core_workers == v.core_workers,
{
}

/// An open pool accepts each task with the next id and moves the counter on
/// by exactly one; `execute` never refuses a task there (only a closed pool
/// answers `Closed`, and only a full pool at its limit aborts).
pub proof fn law_execute_advances_id(v: PoolView, o: SendResult)
    requires
        !v.closed,
    ensures
        execute_model(v, o).0.next_task_id == next_id(v.next_task_id),
        execute_model(v, o).1 is Ok,
{
}

/// The id counter after `k` tasks.
pub open spec fn id_after(id: usize, k: nat) -> usize
    decreases k,
{
    if k == 0 {
        id
    } else {
        next_id(id_after(id, (k - 1) as nat))
    }
}

proof fn lemma_id_after_mod(id: usize, k: nat)
    ensures
        id_after(id, k) as int == (id as int + k) % (usize::MAX as int + 1),
    decreases k,
{
    let m: int = usize::MAX as int + 1;
    if k == 0 {
        vstd::arithmetic::div_mod::lemma_small_mod(id as nat, m as nat);
    } else {
        lemma_id_after_mod(id, (k - 1) as nat);
        let a: int = id as int + (k - 1);
        let prev: int = a % m;
        vstd::arithmetic::div_mod::lemma_add_mod_noop(a, 1, m);
        vstd::arithmetic::div_mod::lemma_mod_bound(a, m);
        vstd::arithmetic::div_mod::lemma_small_mod(1nat, m as nat);
        assert((a + 1) % m == (prev + 1) % m);
        if prev + 1 == m {
            vstd::arithmetic::div_mod::lemma_mod_self_0(m);
            assert(id_after(id, k) == 0);
        } else {
            vstd::arithmetic::div_mod::lemma_small_mod((prev + 1) as nat, m as nat);
            assert(id_after(id, k) as int == prev + 1);
        }
    }
}

/// Tasks accepted one after another get distinct ids: the `i`-th and the
/// `j`-th of fewer than `usize::MAX + 1` tasks never share an id.
pub proof fn law_task_ids_distinct(id: usize, i: nat, j: nat)
    requires
        i < j <= usize::MAX,
    ensures
        id_after(id, i) != id_after(id, j),
{
    lemma_id_after_mod(id, i);
    lemma_id_after_mod(id, j);
    let m: int = usize::MAX as int + 1;
    vstd::arithmetic::div_mod::lemma_fundamental_div_mod(id as int + i, m);
    vstd::arithmetic::div_mod::lemma_fundamental_div_mod(id as int + j, m);
    assert((id as int + i) / m == 0 || (id as int + i) / m == 1) by (nonlinear_arith)
        requires
            0 <= id as int + i < 2 * m,
            m > 0,
    ;
    assert((id as int + j) / m == 0 || (id as int + j) / m == 1) by (nonlinear_arith)
        requires
            0 <= id as int + j < 2 * m,
            m > 0,
    ;
}

/// Where the channel is full, a finished non-core worker is reused before
/// any new one is started: the first one that has finished gets the task and
/// the pool does not grow.
pub proof fn law_idle_worker_reused(v: PoolView, finished: Seq<bool>, i: int)
    requires
        v.workers is Some,
        is_first_finished(finished, i),
    ensures
        full_model(v, finished) == (v, Ok::<Step, TPError>(Step::RestartWorker(i))),
{
    let c = choose|k: int| is_first_finished(finished, k);
    assert(is_first_finished(finished, c));
    assert(first_finished(finished) == Some(c));
    if c < i {
        assert(!finished[c]);
    } else if i < c {
        assert(!finished[i]);
    }
}

/// Where the channel is full, no non-core worker has finished and the pool
/// has as many workers as it may have (or they were taken by `wait`), the
/// task is rejected: `Abort` refuses it, `Discard` drops it, `CallerRuns`
/// hands it back to run in the caller's thread; the pool is unchanged.
pub proof fn law_full_pool_rejects(v: PoolView, finished: Seq<bool>)
    requires
        forall|j: int| 0 <= j < finished.len() ==> !finished[j],
        v.workers matches Some(n) ==> n >= v.max_pool_size - v.core_pool_size,
    ensures
        full_model(v, finished) == (v, reject_model(v.rejected_task_handler)),
        reject_model(v.rejected_task_handler) == Err::<Step, TPError>(TPError::Abort)
            <==> v.rejected_task_handler == crate::thread_pool::RejectedTaskHandler::Abort,
        reject_model(v.rejected_task_handler) == Ok::<Step, TPError>(Step::Discarded)
            <==> v.rejected_task_handler == crate::thread_pool::RejectedTaskHandler::Discard,
        reject_model(v.rejected_task_handler) == Ok::<Step, TPError>(Step::RunInCaller)
            <==> v.rejected_task_handler == crate::thread_pool::RejectedTaskHandler::CallerRuns,
{
    assert(!(exists|i: int| 0 <= i < finished.len() && finished[i]));
}

/// A task is only rejected at the limit: where a non-core worker has
/// finished, or the pool may still grow, a task that finds the channel full
/// is always given to a worker.
pub proof fn law_rejected_only_at_limit(v: PoolView, finished: Seq<bool>, i: int)
    requires
        v.workers matches Some(n) && (n < v.max_pool_size - v.core_pool_size || (0 <= i
            < finished.len() && finished[i])),
    ensures
        full_model(v, finished).1 matches Ok(Step::RestartWorker(_))
            || full_model(v, finished).1 == Ok::<Step, TPError>(Step::StartWorker),
{
    if 0 <= i < finished.len() && finished[i] {
        assert(exists|k: int| 0 <= k < finished.len() && finished[k]);
    }
}

/// The last hook set wins: setting a hook twice is setting it once to the
/// second value, and setting the two hooks commutes.
pub proof fn law_last_listener_wins(
    l: TaskListeners,
    f: Option<ListenerFn>,
    g: Option<ListenerFn>,
)
    ensures
        with_before(with_before(l, f), g) === with_before(l, g),
        with_after(with_after(l, f), g) === with_after(l, g),
        with_before(with_after(l, f), g) === with_after(with_before(l, g), f),
{
}

/// The setters of the plain values each change their own field only, so
/// that setting two of them commutes and the last write wins.
pub proof fn law_setters_commute(c: PoolConfig, x: usize, y: usize)
    ensures
        with_core_pool_size(with_max_pool_size(c, x), y) == with_max_pool_size(
            with_core_pool_size(c, y),
            x,
        ),
        with_core_pool_size(with_core_pool_size(c, x), y) == with_core_pool_size(c, y),
        with_max_pool_size(with_max_pool_size(c, x), y) == with_max_pool_size(c, y),
{
}

/// `new` and `default` give the same builder on a machine: two builders
/// that both hold the default configuration of `cpus` cores are configured
/// alike, hooks included.
pub proof fn law_default_is_unique(a: ThreadPoolBuilder, b: ThreadPoolBuilder, cpus: usize)
    requires
        is_default_for(a, cpus),
        is_default_for(b, cpus),
    ensures
        a@ == b@,
        a.keep_alive() == b.keep_alive(),
        a.listeners() === b.listeners(),
{
}

/// Where the channel is full, the non-core workers are present, none of
/// them has finished and there are fewer than `max_pool_size -
/// core_pool_size` of them, a new non-core worker is started for the task and
/// the pool counts one more; nothing else about the pool changes.
pub proof fn law_full_channel_grows_the_pool(v: PoolView, finished: Seq<bool>, n: usize)
    requires
        v.workers == Some(n),
        forall|j: int| 0 <= j < finished.len() ==> !finished[j],
        n < v.max_pool_size - v.core_pool_size,
    ensures
        full_model(v, finished).1 == Ok::<Step, TPError>(Step::StartWorker),
        full_model(v, finished).0.workers == Some((n + 1) as usize),
        full_model(v, finished).0.core_workers == v.core_workers,
        full_model(v, finished).0.closed == v.closed,
        full_model(v, finished).0.next_task_id == v.next_task_id,
{
    assert(!(exists|i: int| 0 <= i < finished.len() && finished[i]));
}

/// A task that found the channel full is only ever handed to a worker whose
/// thread has finished, and a restart leaves the pool as it was.
pub proof fn law_restart_only_finished_workers(v: PoolView, finished: Seq<bool>)
    ensures
        full_model(v, finished).1 matches Ok(Step::RestartWorker(i)) ==> 0 <= i < finished.len()
            && finished[i] && full_model(v, finished).0 == v,
{
    if exists|i: int| 0 <= i < finished.len() && finished[i] {
        let i = choose|i: int| 0 <= i < finished.len() && finished[i];
        lemma_first_finished_exists(finished, i);
    }
}

/// Where some worker has finished, there is a first one.
proof fn lemma_first_finished_exists(finished: Seq<bool>, i: int)
    requires
        0 <= i < finished.len(),
        finished[i],
    ensures
        exists|k: int| is_first_finished(finished, k),
    decreases i,
{
    if exists|j: int| 0 <= j < i && finished[j] {
        let j = choose|j: int| 0 <= j < i && finished[j];
        lemma_first_finished_exists(finished, j);
    } else {
        assert(is_first_finished(finished, i));
    }
}

/// The test that a worker's thread has not finished, on its finished flag.
pub open spec fn unfinished() -> spec_fn(bool) -> bool {
    |b: bool| !b
}

/// The running count of a set of workers is the number of them whose thread
/// has not finished: every worker when none has finished, none when all
/// have, and never more than there are workers.
pub proof fn law_count_running_counts_unfinished(finished: Seq<bool>)
    ensures
        count_running(finished) == finished.filter(unfinished()).len(),
        count_running(finished) <= finished.len(),
        (forall|j: int| 0 <= j < finished.len() ==> !finished[j]) ==> count_running(finished)
            == finished.len(),
        (forall|j: int| 0 <= j < finished.len() ==> finished[j]) ==> count_running(finished) == 0,
    decreases finished.len(),
{
    if finished.len() > 0 {
        let rest = finished.drop_last();
        law_count_running_counts_unfinished(rest);
        assert(rest.push(finished.last()) == finished);
        rest.lemma_filter_len_push(unfinished(), finished.last());
        assert forall|j: int| 0 <= j < rest.len() implies rest[j] == finished[j] by {}
    }
}

/// The active count of a pool counts the core workers that were started and
/// have not finished, and the non-core workers likewise: never more than the
/// workers the pool has started, and all of them while none has finished.
pub proof fn law_active_count_counts_started_unfinished(
    v: PoolView,
    core_finished: Seq<bool>,
    finished: Seq<bool>,
)
    requires
        observes_core(v, core_finished),
        observes(v, finished),
    ensures
        running_core_workers(v, core_finished) <= v.core_count(),
        v.core_workers is Some ==> running_core_workers(v, core_finished) == core_finished.filter(unfinished()).len(),
        v.core_workers is None ==> running_core_workers(v, core_finished) == 0,
        running_workers(v, finished) <= (match v.workers {
            Some(n) => n as nat,
            None => 0nat,
        }),
        v.workers is Some ==> running_workers(v, finished) == finished.filter(unfinished()).len(),
        v.workers is None ==> running_workers(v, finished) == 0,
        (forall|j: int| 0 <= j < core_finished.len() ==> !core_finished[j]) ==> running_core_workers(
            v,
            core_finished,
        ) == v.core_count(),
{
    law_count_running_counts_unfinished(core_finished);
    law_count_running_counts_unfinished(finished);
}

/// Each setter of a plain value changes its own field only: after setting
/// `max_pool_size` or `core_pool_size`, the field holds the new value and
/// every other field (the handler included) is as it was.
pub proof fn law_setters_change_one_field(c: PoolConfig, s: usize)
    ensures
        with_max_pool_size(c, s).max_pool_size == s,
        with_max_pool_size(c, s).core_pool_size == c.core_pool_size,
        with_max_pool_size(c, s).channel_capacity == c.channel_capacity,
        with_max_pool_size(c, s).rejected_task_handler == c.rejected_task_handler,
        with_core_pool_size(c, s).core_pool_size == s,
        with_core_pool_size(c, s).max_pool_size == c.max_pool_size,
        with_core_pool_size(c, s).channel_capacity == c.channel_capacity,
        with_core_pool_size(c, s).rejected_task_handler == c.rejected_task_handler,
{
}

/// `shutdown` only closes the pool; `wait` also takes the core workers and
/// leaves the non-core ones; `take_workers` also takes the non-core workers
/// and leaves the core ones. None of them touches the ids or the sizes.
pub proof fn law_closing_operations_change_little(v: PoolView)
    ensures
        shutdown_model(v).closed,
        shutdown_model(v).core_workers == v.core_workers,
        shutdown_model(v).workers == v.workers,
        shutdown_model(v).next_task_id == v.next_task_id,
        wait_model(v).closed,
        wait_model(v).core_workers is None,
        wait_model(v).workers == v.workers,
        wait_model(v).next_task_id == v.next_task_id,
        take_workers_model(v).closed,
        take_workers_model(v).workers is None,
        take_workers_model(v).core_workers == v.core_workers,
        take_workers_model(v).next_task_id == v.next_task_id,
        shutdown_model(v).core_pool_size == v.core_pool_size && shutdown_model(v).max_pool_size
            == v.max_pool_size,
        wait_model(v).core_pool_size == v.core_pool_size && wait_model(v).max_pool_size
            == v.max_pool_size,
        take_workers_model(v).core_pool_size == v.core_pool_size
            && take_workers_model(v).max_pool_size == v.max_pool_size,
{
}

/// A new pool is open, has started no worker, gives its first task the id 0,
/// and has the sizes, capacity and handler of its configuration.
pub proof fn law_new_pool_is_empty(c: PoolConfig)
    ensures
        !initial_view(c).closed,
        initial_view(c).core_workers == Some(0usize),
        initial_view(c).workers == Some(0usize),
        initial_view(c).next_task_id == 0,
        initial_view(c).channel_capacity == c.channel_capacity,
        initial_view(c).core_pool_size == c.core_pool_size,
        initial_view(c).max_pool_size == c.max_pool_size,
        initial_view(c).rejected_task_handler == c.rejected_task_handler,
{
}

/// The default configuration has a channel of 1000 tasks, as many workers
/// as cores, and half of them (rounded down, at least one) core workers.
pub proof fn law_default_config_sizes(cpus: usize)
    requires
        cpus >= 1,
    ensures
        default_config(cpus).channel_capacity == 1000,
        default_config(cpus).max_pool_size == cpus,
        default_config(cpus).core_pool_size >= 1,
        default_config(cpus).core_pool_size == 1 || 2 * default_config(cpus).core_pool_size <= cpus,
        cpus < 2 * default_config(cpus).core_pool_size + 2,
        default_config(cpus).rejected_task_handler == crate::thread_pool::RejectedTaskHandler::Abort,
{
}

/// The default configuration builds on every machine with at most 1000
/// physical cores.
pub proof fn law_default_config_valid(cpus: usize)
    requires
        1 <= cpus <= 1000,
    ensures
        valid_config(default_config(cpus)),
        default_config(cpus).channel_capacity <= MAX_CHANNEL_CAPACITY,
{
}

} // verus!
