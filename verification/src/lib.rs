//! Client-side orchestration logic for a Kafka broker inspection tool.
//!
//! The crate covers the broker-facing core: offset resolution (earliest /
//! latest-minus-N), validation and application of manual offset commits,
//! a bounded consume session driven as a state machine, a publish session,
//! and the connection-profile bookkeeping.  All network round-trips are
//! performed by the caller, which feeds their outcomes back into the state
//! machines defined here.

pub mod commit;
pub mod config;
pub mod publish;
pub mod resolver;
pub mod session;
pub mod types;
pub mod workspace;
