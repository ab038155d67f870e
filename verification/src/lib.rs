//! Snapshot of a host's uptime: the pieces of the classic one-line status
//! report, each computed from plain values and proved against its contract.

pub mod cli;
pub mod clock;
pub mod counter;
pub mod duration;
pub mod error;
pub mod load;
pub mod report;
pub mod resolver;
pub mod sessions;
pub mod text;
