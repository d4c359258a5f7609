//! Usage statistics for a key-value storage access layer.
//!
//! A [`UsageStats`] tracker counts read and write operations and the bytes
//! they move, and keeps apart the reads that a cache served. A monitoring
//! caller drains it with [`UsageStats::take`], which reports what was counted
//! since the previous drain and sets every counter back to zero.
//!
//! Every operation is stated over [`Counters`], the mathematical value of the
//! six counters, so that what a sequence of calls leaves behind can be
//! reasoned about; the `history` module proves what such sequences add up to.
//!
//! A tracker has one owner at a time: the operations that change it take
//! `&mut self`, which is what lets each contract say exactly what the call
//! did. Callers that share a tracker between threads put it behind a lock.

pub mod clock;
pub mod counters;
pub mod history;
pub mod info;
pub mod stats;

pub use counters::Counters;
pub use history::Call;
pub use info::{UsageInfo, UsageUnit};
pub use stats::UsageStats;
