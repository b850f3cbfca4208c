//! A load-generation benchmark for a streaming RPC service, with its core
//! state machines verified: the shutdown latch, the metrics window, the
//! readiness wait, and the stream protocol.

pub mod args;
pub mod bench;
pub mod health;
pub mod memory;
pub mod protocol;
pub mod text;
pub mod utils;

use vstd::prelude::*;

verus! {

/// Number of concurrent connection-loop workers the orchestrator launches.
pub const PARALLELISM: u64 = 8;

} // verus!
