//! The mathematical value of a bank of six usage counters.

use vstd::arithmetic::div_mod::{lemma_add_mod_noop_right, lemma_small_mod};
use vstd::prelude::*;

verus! {

/// The value a 64-bit counter holds once `n` has been counted into it from
/// zero: a counter that runs past its largest value starts again at zero.
pub open spec fn wrap(n: nat) -> nat {
    n % 0x1_0000_0000_0000_0000
}

/// A count that fits a counter is held as it is.
pub proof fn lemma_wrap_small(n: nat)
    requires
        n <= u64::MAX,
    ensures
        wrap(n) == n,
{
    lemma_small_mod(n, 0x1_0000_0000_0000_0000);
}

/// Counting on from what a counter holds gives what the counter would
/// hold had everything been counted at once.
pub proof fn lemma_wrap_absorbs(counted: nat, more: nat)
    ensures
        wrap(wrap(counted) + more) == wrap(counted + more),
{
    lemma_add_mod_noop_right(more as int, counted as int, 0x1_0000_0000_0000_0000);
}

/// Six counts: read operations and the bytes they moved, write operations
/// and the bytes they moved, and the part of the reads that a cache served.
///
/// The same shape describes the state of a tracker, where every count fits
/// a 64-bit counter, and the sum of what a sequence of calls contributes,
/// where a count may be of any size.
pub struct Counters {
    pub reads: nat,
    pub bytes_read: nat,
    pub writes: nat,
    pub bytes_written: nat,
    pub reads_cache: nat,
    pub bytes_read_cache: nat,
}

impl Counters {
    /// Nothing counted.
    pub open spec fn zero() -> Counters {
        Counters {
            reads: 0,
            bytes_read: 0,
            writes: 0,
            bytes_written: 0,
            reads_cache: 0,
            bytes_read_cache: 0,
        }
    }

    /// What one read of `data_bytes` bytes contributes: one read and its
    /// bytes, and the same again under the cache counts if a cache served it.
    pub open spec fn of_read(data_bytes: nat, cache: bool) -> Counters {
        Counters {
            reads: 1,
            bytes_read: data_bytes,
            writes: 0,
            bytes_written: 0,
            reads_cache: if cache { 1 } else { 0 },
            bytes_read_cache: if cache { data_bytes } else { 0 },
        }
    }

    /// What a batch of `ops` writes of `data_bytes` bytes in all contributes.
    pub open spec fn of_writes(ops: nat, data_bytes: nat) -> Counters {
        Counters {
            reads: 0,
            bytes_read: 0,
            writes: ops,
            bytes_written: data_bytes,
            reads_cache: 0,
            bytes_read_cache: 0,
        }
    }

    /// Every count fits a 64-bit counter.
    pub open spec fn bounded(self) -> bool {
        &&& self.reads <= u64::MAX
        &&& self.bytes_read <= u64::MAX
        &&& self.writes <= u64::MAX
        &&& self.bytes_written <= u64::MAX
        &&& self.reads_cache <= u64::MAX
        &&& self.bytes_read_cache <= u64::MAX
    }

    /// The cache counts are a part of the read counts: no more reads were
    /// served by a cache than there were reads, and no more bytes.
    pub open spec fn coherent(self) -> bool {
        &&& self.reads_cache <= self.reads
        &&& self.bytes_read_cache <= self.bytes_read
    }

    /// The sum, count by count.
    pub open spec fn plus(self, other: Counters) -> Counters {
        Counters {
            reads: self.reads + other.reads,
            bytes_read: self.bytes_read + other.bytes_read,
            writes: self.writes + other.writes,
            bytes_written: self.bytes_written + other.bytes_written,
            reads_cache: self.reads_cache + other.reads_cache,
            bytes_read_cache: self.bytes_read_cache + other.bytes_read_cache,
        }
    }

    /// Each count as a 64-bit counter holds it.
    pub open spec fn wrapped(self) -> Counters {
        Counters {
            reads: wrap(self.reads),
            bytes_read: wrap(self.bytes_read),
            writes: wrap(self.writes),
            bytes_written: wrap(self.bytes_written),
            reads_cache: wrap(self.reads_cache),
            bytes_read_cache: wrap(self.bytes_read_cache),
        }
    }

    /// The state of a tracker in state `self` after `amount` was counted
    /// into it.
    pub open spec fn count(self, amount: Counters) -> Counters {
        self.plus(amount).wrapped()
    }

    /// Counts that fit their counters are held as they are.
    pub proof fn lemma_wrapped_bounded(self)
        requires
            self.bounded(),
        ensures
            self.wrapped() == self,
    {
        lemma_wrap_small(self.reads);
        lemma_wrap_small(self.bytes_read);
        lemma_wrap_small(self.writes);
        lemma_wrap_small(self.bytes_written);
        lemma_wrap_small(self.reads_cache);
        lemma_wrap_small(self.bytes_read_cache);
    }

    /// Counting in two amounts, one after the other, is counting in their
    /// sum.
    pub proof fn lemma_count_twice(self, first: Counters, second: Counters)
        ensures
            self.count(first).count(second) == self.count(first.plus(second)),
    {
        lemma_wrap_absorbs(self.reads + first.reads, second.reads);
        lemma_wrap_absorbs(self.bytes_read + first.bytes_read, second.bytes_read);
        lemma_wrap_absorbs(self.writes + first.writes, second.writes);
        lemma_wrap_absorbs(self.bytes_written + first.bytes_written, second.bytes_written);
        lemma_wrap_absorbs(self.reads_cache + first.reads_cache, second.reads_cache);
        lemma_wrap_absorbs(
            self.bytes_read_cache + first.bytes_read_cache,
            second.bytes_read_cache,
        );
    }
}

} // verus!
