//! Execution core of an online-judge sandbox.
//!
//! Given a compiled or interpretable submission and a set of test-case
//! inputs, the surrounding host runs each test case as a child process
//! under a wall-clock time limit and a memory limit, samples the child's
//! resource usage while it runs, classifies the outcome, and reports one
//! structured result per test case.
//!
//! This crate holds the decision core of that system: the request and
//! result data model, the resource-monitor state machine, outcome
//! classification, command selection, and result aggregation.  The host
//! process around it performs the operating-system work (spawning
//! children, feeding stdin, polling process information, racing the
//! deadline) and feeds every observation into the functions here.

pub mod aggregate;
pub mod codec;
pub mod command;
pub mod entity;
pub mod executor;
pub mod monitor;

pub use entity::RequestArgs;
pub use entity::Response;
