//! A local process supervisor: launches user commands as child processes,
//! accumulates their combined stdout/stderr output per slot, and terminates a
//! process (and, on Unix-like systems, its whole process group) on demand.
//!
//! The supervisor's state and decisions are verified here; the surrounding
//! binary performs the actual spawning, signalling and stream reading and
//! feeds the results back into these functions.

pub mod errors;
pub mod launch;
pub mod registry;
pub mod aggregator;
pub mod lifecycle;
