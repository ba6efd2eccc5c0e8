//! Game-state inference for a load-removing autosplitter.
//!
//! Once per tick the host samples a fixed set of memory locations of the
//! running game. This library decides, from the two most recent samples of
//! each location, whether a run begins, whether game time accrues, and
//! whether a split boundary was crossed. It performs no reads and drives no
//! timer itself: the host reads memory, hands the outcome in as plain values,
//! and carries out the signals it gets back.

pub mod layout;
pub mod text;
pub mod watcher;
pub mod sample;
pub mod evaluator;
pub mod driver;
