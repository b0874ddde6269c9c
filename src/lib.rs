//! Purchase scheduling, order retry and credential supply for a ticket
//! purchase race.
//!
//! The library holds the decisions of the flow as verified state machines
//! and pure functions: the countdown scheduler, the two-phase build/submit
//! retry engine, the token pool that feeds the vendor gateway, and the
//! helpers that assemble and classify vendor requests and responses.
//! Network, timers and terminal I/O stay with the caller.

pub mod config;
pub mod digits;
pub mod engine;
pub mod errors;
pub mod jitter;
pub mod models;
pub mod notify;
pub mod scheduler;
pub mod session;
pub mod submit;
pub mod text;
pub mod token_store;
