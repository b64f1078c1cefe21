//! Core of an actor runtime: the dispatch and lifecycle engine.
//!
//! Actors are isolated, single-threaded message-processing entities addressed
//! by location-transparent identifiers and supervised by their parents. This
//! crate holds the verified heart of such a runtime: per-actor mailboxes with
//! serial delivery, the lifecycle state machine, the supervision strategy that
//! rate-limits restarts, the one-shot future process behind request/response,
//! message envelopes, and the process registry. Everything that must run user
//! code, wait, or touch a clock is driven from outside through plain values:
//! the engine is a function from state and event to next state and actions.

pub mod actor_context;
pub mod actor_system;
pub mod event_stream;
pub mod future;
pub mod log;
pub mod mailbox;
pub mod message;
pub mod message_envelope;
pub mod pid;
pub mod props;
pub mod restart_statistics;
pub mod strategy_one_for_one;

pub use pid::Pid;
