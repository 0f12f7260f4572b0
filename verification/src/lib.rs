//! Decision logic of a checkpoint executor: which checkpoints an epoch run
//! schedules, how the transactions of a checkpoint are split into those that
//! still need executing and those already executed (with fork detection), how
//! the loaded contents of a checkpoint are assembled, and how the
//! highest-executed watermark advances and what it prunes.
//!
//! Everything that reads from or writes to storage, waits, or spawns work is
//! left to the caller, which hands the library plain values and performs the
//! actions that the library's results describe.
mod stack;
mod unzip;

pub mod types;
pub mod execution;
pub mod loading;
pub mod watermark;
pub mod schedule;
pub mod progress;
