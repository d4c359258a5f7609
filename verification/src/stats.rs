//! The usage tracker: six counters, the instant at which counting began,
//! and the operations that feed and drain them.

use crate::counters::Counters;
use crate::info::{UsageInfo, UsageUnit};
use std::time::{Duration, Instant};
use vstd::prelude::*;

verus! {

/// Accumulated usage statistics for state queries.
///
/// The counters are 64 bits wide and are not guarded against running over:
/// one that is counted past its largest value starts again at zero.
pub struct UsageStats {
    started: Instant,
    reads: u64,
    bytes_read: u64,
    writes: u64,
    bytes_written: u64,
    reads_cache: u64,
    bytes_read_cache: u64,
}

impl View for UsageStats {
    type V = Counters;

    /// What the six counters hold.
    closed spec fn view(&self) -> Counters {
        Counters {
            reads: self.reads as nat,
            bytes_read: self.bytes_read as nat,
            writes: self.writes as nat,
            bytes_written: self.bytes_written as nat,
            reads_cache: self.reads_cache as nat,
            bytes_read_cache: self.bytes_read_cache as nat,
        }
    }
}

/// The number of bytes of a value that a read found, zero where it found
/// none.
pub open spec fn value_len(val: Option<Vec<u8>>) -> nat {
    match val {
        Some(bytes) => bytes@.len(),
        None => 0,
    }
}

/// Hands out what a pair of counters holds and sets both back to zero.
fn unit(ops: &mut u64, bytes: &mut u64) -> (unit: UsageUnit)
    ensures
        unit.ops == *old(ops),
        unit.bytes == *old(bytes),
        *final(ops) == 0,
        *final(bytes) == 0,
{
    let unit = UsageUnit { ops: *ops, bytes: *bytes };
    *ops = 0;
    *bytes = 0;
    unit
}

impl UsageStats {
    /// The instant at which the tracker was started. It never changes.
    pub closed spec fn started(&self) -> Instant {
        self.started
    }

    /// The state of a tracker always fits its 64-bit counters.
    pub proof fn lemma_bounded(&self)
        ensures
            self@.bounded(),
    {
    }

    /// New empty usage stats, started now.
    pub fn new() -> (stats: Self)
        ensures
            stats@ == Counters::zero(),
    {
        Self::started_at(Instant::now())
    }

    /// New empty usage stats that count as started at `started`.
    pub fn started_at(started: Instant) -> (stats: Self)
        ensures
            stats@ == Counters::zero(),
            stats.started() == started,
    {
        Self {
            started,
            reads: 0,
            bytes_read: 0,
            writes: 0,
            bytes_written: 0,
            reads_cache: 0,
            bytes_read_cache: 0,
        }
    }

    /// Tally one read operation, of some length.
    pub fn tally_read(&mut self, data_bytes: u64, cache: bool)
        ensures
            final(self)@ == old(self)@.count(Counters::of_read(data_bytes as nat, cache)),
            final(self).started() == old(self).started(),
    {
        self.reads = self.reads.wrapping_add(1);
        self.bytes_read = self.bytes_read.wrapping_add(data_bytes);
        if cache {
            self.reads_cache = self.reads_cache.wrapping_add(1);
            self.bytes_read_cache = self.bytes_read_cache.wrapping_add(data_bytes);
        }
    }

    /// Tally one key read: the bytes of the key and of the value found, if
    /// any. The value is handed back as it came.
    pub fn tally_key_read(
        &mut self,
        key: &[u8],
        val: Option<Vec<u8>>,
        cache: bool,
    ) -> (res: Option<Vec<u8>>)
        ensures
            res == val,
            final(self)@ == old(self)@.count(
                Counters::of_read(key@.len() + value_len(val), cache),
            ),
            final(self).started() == old(self).started(),
    {
        let val_bytes: u64 = match &val {
            Some(bytes) => bytes.len() as u64,
            None => 0,
        };
        self.tally_read((key.len() as u64).wrapping_add(val_bytes), cache);
        val
    }

    /// Tally one child key read: the bytes of both parts of the key and of
    /// the value found, if any. The value is handed back as it came.
    pub fn tally_child_key_read(
        &mut self,
        key: &(Vec<u8>, Vec<u8>),
        val: Option<Vec<u8>>,
        cache: bool,
    ) -> (res: Option<Vec<u8>>)
        ensures
            res == val,
            final(self)@ == old(self)@.count(
                Counters::of_read(key.0@.len() + key.1@.len() + value_len(val), cache),
            ),
            final(self).started() == old(self).started(),
    {
        let val_bytes: u64 = match &val {
            Some(bytes) => bytes.len() as u64,
            None => 0,
        };
        let key_bytes: u64 = (key.0.len() as u64).wrapping_add(key.1.len() as u64);
        self.tally_read(key_bytes.wrapping_add(val_bytes), cache);
        val
    }

    /// Tally some write operations, including their byte count.
    pub fn tally_writes(&mut self, ops: u64, data_bytes: u64)
        ensures
            final(self)@ == old(self)@.count(Counters::of_writes(ops as nat, data_bytes as nat)),
            final(self).started() == old(self).started(),
    {
        self.writes = self.writes.wrapping_add(ops);
        self.bytes_written = self.bytes_written.wrapping_add(data_bytes);
    }

    /// Merge state machine usage info: every count of `info` is added to
    /// the counter it belongs to. The memory and the times of `info` are
    /// not looked at.
    pub fn merge_sm(&mut self, info: UsageInfo)
        ensures
            final(self)@ == old(self)@.count(info.counters()),
            final(self).started() == old(self).started(),
    {
        self.reads = self.reads.wrapping_add(info.reads.ops);
        self.bytes_read = self.bytes_read.wrapping_add(info.reads.bytes);
        self.writes = self.writes.wrapping_add(info.writes.ops);
        self.bytes_written = self.bytes_written.wrapping_add(info.writes.bytes);
        self.reads_cache = self.reads_cache.wrapping_add(info.cache_reads.ops);
        self.bytes_read_cache = self.bytes_read_cache.wrapping_add(info.cache_reads.bytes);
    }

    /// Drains the tracker: reports what the counters hold and sets them
    /// back to zero. The report carries the instant at which the tracker
    /// was started and the time gone by since, as the clock gives it at
    /// the call; of that time nothing is promised.
    pub fn take(&mut self) -> (info: UsageInfo)
        ensures
            info.counters() == old(self)@,
            info.memory == 0,
            info.started == old(self).started(),
            final(self)@ == Counters::zero(),
            final(self).started() == old(self).started(),
    {
        let span = self.started.elapsed();
        self.take_spanning(span)
    }

    /// Drains the tracker into a report that spans `span`: the report holds
    /// what the counters held, zero for the memory, the instant at which
    /// the tracker was started, and `span`; every counter is back at zero.
    pub fn take_spanning(&mut self, span: Duration) -> (info: UsageInfo)
        ensures
            info.counters() == old(self)@,
            info.memory == 0,
            info.started == old(self).started(),
            info.span == span,
            final(self)@ == Counters::zero(),
            final(self).started() == old(self).started(),
    {
        UsageInfo {
            reads: unit(&mut self.reads, &mut self.bytes_read),
            writes: unit(&mut self.writes, &mut self.bytes_written),
            cache_reads: unit(&mut self.reads_cache, &mut self.bytes_read_cache),
            memory: 0,
            started: self.started,
            span,
        }
    }
}

} // verus!
