//! Lifecycle bookkeeping for external child processes that talk over their
//! standard streams in newline-delimited text.
//!
//! The crate holds the decisions, not the I/O: the registry of live
//! processes with its ownership rules, and the steps of the spawn, send, stop,
//! pump and exit-monitor protocols. A driver performs the operating-system
//! work between those steps and guards the registry with a lock; every
//! function here that takes the registry is one critical section.
pub mod event;
pub mod laws;
pub mod monitor;
pub mod pump;
pub mod registry;
pub mod send;
pub mod spawn;
pub mod stop;
pub mod text;
