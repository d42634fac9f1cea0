//! Early bring-up layer of a small x86_64 kernel: the trap-vector table, the
//! task-state and segment setup that gives the double-fault handler its own
//! stack, the trap handlers' decisions, the startup order that ties them
//! together, and the serial test-status convention.

pub mod config;
pub mod segments;
pub mod traps;
pub mod handlers;
pub mod startup;
pub mod laws;
pub mod serial;
pub mod status;
