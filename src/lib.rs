//! Supervision of operating-system child processes for installing load-testing
//! projects, and the class model used to describe data types to Dart code.
//!
//! Everything here is plain, synchronous and verified: the decisions that drive a
//! process run, a cancellation, a project check and an installation are state
//! machines over plain values, and the code that spawns, waits and touches the
//! filesystem hands them its observations.

pub mod status;
pub mod std_types;
pub mod process;
pub mod text;
pub mod project_check;
pub mod installer;
pub mod dart;
pub mod project_manager;
