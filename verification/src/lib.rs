//! Adjustable, measurable CPU load.
//!
//! The library holds the decisions of a load generator and leaves the doing
//! to its caller: threads, processes, sleeping and the network stay outside.
//!
//! - [`workload`]: the unit of work and the runner that drives it.
//! - [`metrics`]: the aggregator that turns counted units into a rate.
//! - [`mode`]: the execution modes and the target utilization.
//! - [`orchestrator`]: the mode state and the control operations on it.
//! - [`spawner`]: what disposable worker processes report and contribute.
//! - [`bursty`]: the burst duty-cycle controller.
//! - [`report`]: the texts of the control surface.
//! - [`pool`]: the size of the worker pools.
//!
//! Every function carries a contract over a mathematical model of its data,
//! and the properties that relate several functions are stated as lemmas
//! beside them.

pub mod bursty;
pub mod metrics;
pub mod mode;
pub mod orchestrator;
pub mod pool;
pub mod report;
pub mod spawner;
pub mod workload;
