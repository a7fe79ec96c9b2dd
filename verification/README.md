# jtp

A thread pool in the manner of Java's `ThreadPoolExecutor`, with its
bookkeeping and decisions verified by Verus.

- `src/` is the verified library: the builder and its argument checks, the
  pool's state (channel, core and non-core worker counts, task ids), every
  decision taken on a submitted task (`execute`,
  `process_task_if_channel_full`, `reject`), `shutdown`, `wait`, the worker
  counts, tasks and their hooks, and the laws that relate them (`laws.rs`).
- `app/` runs what the library decides: it holds the pool behind a mutex,
  spawns and joins the worker threads, turns closures into tasks and hooks,
  and gives the errors their messages.
- `tests/` exercises the library on concrete values.
