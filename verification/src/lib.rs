//! Core engine for live telemetry extraction from a running external
//! process's memory.
//!
//! The library holds the verified logic of the engine: the error taxonomy,
//! the pointer-chain resolution algorithm, the change-gated sampling poller,
//! the supervisor that races pollers and tears the group down on first
//! failure, and the connection loop's retry protocol. Everything that talks
//! to the operating system (attaching to the process, the raw reads, the
//! task scheduler, the event channel, the network listener) lives outside
//! and drives these state machines, feeding in read results and carrying
//! out the actions they request.

pub mod chain;
pub mod hdmem;
pub mod poll;
pub mod pollers;
