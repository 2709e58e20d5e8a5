//! Orbital state of a set of celestial bodies at a requested instant.
//!
//! The state at the reference epoch is known. The state at any other instant
//! is reached by stepping Newtonian gravity forwards or backwards in time,
//! which is costly, so results are kept by day and reused.
//!
//! * [`instant`]: instants of the UTC time line, read and rendered by
//!   `chrono`.
//! * [`plan`]: how many steps of which length lead to a target instant.
//! * [`integrator`]: the two phases of a step and the run over all steps,
//!   around the floating-point arithmetic that the caller supplies.
//! * [`persistence`]: the stores, their order, and their keys.
//! * [`orchestrator`]: the decisions of one compute-or-fetch request.
//! * [`store_model`]: a model of the stores, and what requests do against it.
//! * [`indexes`]: the uniqueness index of the remote store.
//! * [`request`]: what a client may ask for.
//! * [`logging`]: which logger a process sets up.

pub mod indexes;
pub mod instant;
pub mod integrator;
pub mod logging;
pub mod orchestrator;
pub mod persistence;
pub mod plan;
pub mod request;
pub mod store_model;
