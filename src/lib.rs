//! Scenario execution engine for a declarative load-generation harness.
//!
//! The library holds the decisions: the pacing of one generator at one tick
//! per second, the resolution and validation of scenario entries, the work
//! of the CPU and RAM generators, and the aggregation of outcomes. Clocks,
//! sleeping, threads and files stay with the caller.
pub mod pacing;
pub mod cpu;
pub mod ram;
pub mod text;
pub mod config;
pub mod registry;
pub mod scenario;
