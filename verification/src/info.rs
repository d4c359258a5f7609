//! The report that a tracker hands out when it is drained, and that it
//! takes in when another component's usage is folded into its own.

use crate::counters::Counters;
use std::time::{Duration, Instant};
use vstd::prelude::*;

verus! {

/// A number of operations and the bytes they moved in all.
#[derive(Clone, Copy, Debug, PartialEq, Eq, Default)]
pub struct UsageUnit {
    /// Number of operations.
    pub ops: u64,
    /// Number of bytes.
    pub bytes: u64,
}

/// Usage over a span of time: reads, writes, and the part of the reads
/// that a cache served.
#[derive(Clone, Copy, Debug)]
pub struct UsageInfo {
    /// Reads, those served by a cache included.
    pub reads: UsageUnit,
    /// Writes.
    pub writes: UsageUnit,
    /// The reads that a cache served.
    pub cache_reads: UsageUnit,
    /// Memory used. A tracker does not measure memory and reports zero.
    pub memory: usize,
    /// The instant at which the tracker that made the report was started.
    pub started: Instant,
    /// The time from `started` to the making of the report.
    pub span: Duration,
}

impl UsageInfo {
    /// The six counts of the report.
    pub open spec fn counters(&self) -> Counters {
        Counters {
            reads: self.reads.ops as nat,
            bytes_read: self.reads.bytes as nat,
            writes: self.writes.ops as nat,
            bytes_written: self.writes.bytes as nat,
            reads_cache: self.cache_reads.ops as nat,
            bytes_read_cache: self.cache_reads.bytes as nat,
        }
    }
}

} // verus!
