//! Verified core of a line-oriented chat relay.
//!
//! The library holds everything the relay decides: the shared name
//! registry, the semantics of the bounded broadcast bus, the per-client
//! session state machine, and the exact text of every server-originated
//! line. The surrounding process (socket accept loop, line framing,
//! the async select loop) is ordinary glue that feeds plain values in
//! and carries the decided actions out.

pub mod bus;
pub mod messages;
pub mod registry;
pub mod session;
