//! Core of a single-process super-server: a dispatcher that owns one listening
//! socket per configured TCP port and, for each accepted connection, spawns a
//! worker process and hands the live connection off to it through a duplicated
//! socket descriptor written over an anonymous pipe.
//!
//! This crate holds the decision logic of that dispatcher, verified: the
//! listener registry and its token discipline, the dispatch decision taken on
//! each readiness wake-up, and the handoff protocol as an explicit state
//! machine with handle accounting. The operating-system calls themselves
//! (binding, polling, accepting, pipe and process creation, socket
//! duplication) are performed by the host program, which drives these machines
//! and reports each outcome back.

pub mod config;
pub mod dispatch;
pub mod error;
pub mod handoff;
pub mod registry;
