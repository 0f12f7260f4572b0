# checkpoint_executor

The decision logic of a blockchain node's checkpoint executor, verified with Verus.

- `src/types.rs` — digests, checkpoint summaries, run-with-range bounds, stop reasons.
- `src/schedule.rs` — where an epoch run starts (`start_epoch`) and the scheduler that
  hands out synced checkpoints in order up to the stop bound or through the epoch's last checkpoint.
- `src/loading.rs` — assembling the transactions and effects loaded for a checkpoint.
- `src/execution.rs` — fork detection (`detect_fork`, `find_first_fork`, `assert_not_forked`) and splitting a checkpoint's
  transactions into those still to execute and those already executed.
- `src/watermark.rs` — moving the highest-executed watermark without skipping checkpoints,
  and which full contents to prune.
- `src/progress.rs` — per-run bookkeeping (processing in sequence order), throughput
  sampling, and what follows committing a checkpoint.
- `app/lib.rs` — the asynchronous driver: storage, waiting, spawning and metrics, following
  the library's decisions.
