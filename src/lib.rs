//! Core logic of a load-generation harness: a client sends one fixed-size
//! frame per task id over many concurrent connections, and a server records
//! which ids it has seen.
//!
//! Everything here is plain state and decisions; the networking, timers and
//! task spawning live with the caller, which reports what happened as events.
use vstd::prelude::*;

pub mod acceptor;
pub mod admission;
pub mod dispatch;
pub mod frame;
pub mod handler;
pub mod pool;
pub mod retry;
pub mod tracker;
