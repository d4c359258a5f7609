//! What sequences of calls on a tracker add up to.
//!
//! A [`Call`] stands for one operation of the tracker, and [`replay`] for
//! the state that a sequence of them leaves behind. A drain promises to
//! leave every counter at zero, and each other operation to leave the
//! tracker where counting in its [`Call::amount`] leaves it, which is what
//! [`Call::after`] says; so what is proved here of `replay` holds of any
//! run of calls on a tracker.

use crate::counters::{lemma_wrap_small, Counters};
use vstd::prelude::*;

verus! {

/// One operation on a tracker, with what was handed to it.
pub enum Call {
    /// One read of `data_bytes` bytes, served by a cache or not. A key read
    /// is a read of the bytes of its key and of the value it found.
    Read { data_bytes: nat, cache: bool },
    /// A batch of `ops` writes of `data_bytes` bytes in all.
    Writes { ops: nat, data_bytes: nat },
    /// The counts of a report, folded in.
    Merge { info: Counters },
    /// A drain.
    Take,
}

impl Call {
    /// What the call counts into the tracker. A drain counts nothing.
    pub open spec fn amount(self) -> Counters {
        match self {
            Call::Read { data_bytes, cache } => Counters::of_read(data_bytes, cache),
            Call::Writes { ops, data_bytes } => Counters::of_writes(ops, data_bytes),
            Call::Merge { info } => info,
            Call::Take => Counters::zero(),
        }
    }

    /// The state of a tracker after the call, made in state `before`.
    pub open spec fn after(self, before: Counters) -> Counters {
        if self is Take {
            Counters::zero()
        } else {
            before.count(self.amount())
        }
    }

    /// The call cannot part the cache counts from the read counts of a
    /// tracker in state `before`: it is a drain, or with what it counts
    /// added at full size the cache counts are still a part of the read
    /// counts, and neither read counter runs over.
    pub open spec fn keeps_coherence(self, before: Counters) -> bool {
        ||| self is Take
        ||| {
            &&& before.plus(self.amount()).coherent()
            &&& before.reads + self.amount().reads <= u64::MAX
            &&& before.bytes_read + self.amount().bytes_read <= u64::MAX
        }
    }
}

/// The state of a tracker that was in state `start` and then took `calls`,
/// one after the other.
pub open spec fn replay(start: Counters, calls: Seq<Call>) -> Counters
    decreases calls.len(),
{
    if calls.len() == 0 {
        start
    } else {
        calls.last().after(replay(start, calls.drop_last()))
    }
}

/// The sum of what `calls` count, each count at its full size.
pub open spec fn total(calls: Seq<Call>) -> Counters
    decreases calls.len(),
{
    if calls.len() == 0 {
        Counters::zero()
    } else {
        total(calls.drop_last()).plus(calls.last().amount())
    }
}

/// No call of `calls` is a drain.
pub open spec fn no_take(calls: Seq<Call>) -> bool {
    forall|i: int| 0 <= i < calls.len() ==> !(#[trigger] calls[i] is Take)
}

/// Every call of `calls` is a tally: a read or a batch of writes.
pub open spec fn only_tallies(calls: Seq<Call>) -> bool {
    forall|i: int| 0 <= i < calls.len() ==> (#[trigger] calls[i] is Read) || calls[i] is Writes
}

/// Every call of `calls`, made in turn on a tracker that starts in state
/// `start`, keeps coherence in the state it finds.
pub open spec fn steady(start: Counters, calls: Seq<Call>) -> bool
    decreases calls.len(),
{
    calls.len() == 0 || {
        &&& steady(start, calls.drop_last())
        &&& calls.last().keeps_coherence(replay(start, calls.drop_last()))
    }
}

/// Replaying a sequence made of two parts is replaying the second part
/// from where the first one ends.
pub proof fn lemma_replay_concat(start: Counters, first: Seq<Call>, second: Seq<Call>)
    ensures
        replay(start, first + second) == replay(replay(start, first), second),
    decreases second.len(),
{
    if second.len() == 0 {
        assert(first + second =~= first);
    } else {
        assert((first + second).drop_last() =~= first + second.drop_last());
        lemma_replay_concat(start, first, second.drop_last());
    }
}

/// Calls without a drain among them add up: the tracker ends in the state
/// it started in with the sum of what the calls count counted into it.
/// Where no counter runs over on the way, each counter holds exactly what
/// it held at the start plus what the calls count.
pub proof fn lemma_replay_adds_up(start: Counters, calls: Seq<Call>)
    requires
        start.bounded(),
        no_take(calls),
    ensures
        replay(start, calls) == start.count(total(calls)),
        start.plus(total(calls)).bounded() ==> replay(start, calls) == start.plus(total(calls)),
    decreases calls.len(),
{
    if calls.len() == 0 {
        start.lemma_wrapped_bounded();
    } else {
        let rest = calls.drop_last();
        lemma_replay_adds_up(start, rest);
        assert(!(calls[calls.len() - 1] is Take));
        start.lemma_count_twice(total(rest), calls.last().amount());
    }
    if start.plus(total(calls)).bounded() {
        start.plus(total(calls)).lemma_wrapped_bounded();
    }
}

/// Of a sequence of tallies, the sum counts as many reads as there are
/// read tallies and as many cache reads as there are read tallies that a
/// cache served, and its cache counts are a part of its read counts.
pub proof fn lemma_total_of_tallies(calls: Seq<Call>)
    requires
        only_tallies(calls),
    ensures
        total(calls).reads == calls.filter(|c: Call| c is Read).len(),
        total(calls).reads_cache == calls.filter(|c: Call| c is Read && c->cache).len(),
        total(calls).coherent(),
    decreases calls.len(),
{
    reveal(Seq::filter);
    if calls.len() > 0 {
        let rest = calls.drop_last();
        assert(calls[calls.len() - 1] is Read || calls[calls.len() - 1] is Writes);
        lemma_total_of_tallies(rest);
    }
}

/// A drain opens a new window: whatever came before it, the calls made
/// since, if none of them is a drain, leave the tracker holding the sum
/// of what they alone count. A drain that follows another at once finds
/// every counter at zero.
pub proof fn lemma_take_opens_window(start: Counters, before: Seq<Call>, since: Seq<Call>)
    requires
        no_take(since),
    ensures
        replay(start, before.push(Call::Take)) == Counters::zero(),
        replay(start, before.push(Call::Take) + since) == total(since).wrapped(),
        replay(start, before.push(Call::Take).push(Call::Take)) == Counters::zero(),
{
    let drained = before.push(Call::Take);
    assert(drained.last() is Take);
    assert(drained.push(Call::Take).last() is Take);
    lemma_replay_concat(start, drained, since);
    lemma_replay_adds_up(Counters::zero(), since);
}

/// Merging the same report twice counts it in twice: the tracker ends
/// where counting in the doubled report would leave it. Where no counter
/// runs over, one merge adds to each counter what the report holds for
/// it, and two merges add twice that.
pub proof fn lemma_merge_twice(start: Counters, info: Counters)
    ensures
        start.count(info).count(info) == start.count(info.plus(info)),
        start.plus(info.plus(info)).bounded() ==> {
            &&& start.count(info) == start.plus(info)
            &&& start.count(info).count(info) == start.plus(info.plus(info))
        },
{
    start.lemma_count_twice(info, info);
    if start.plus(info.plus(info)).bounded() {
        start.plus(info).lemma_wrapped_bounded();
        start.plus(info.plus(info)).lemma_wrapped_bounded();
    }
}

/// A call that keeps coherence leaves the cache counts of a tracker a
/// part of its read counts.
pub proof fn lemma_call_keeps_coherence(before: Counters, call: Call)
    requires
        before.bounded(),
        call.keeps_coherence(before),
    ensures
        call.after(before).coherent(),
        call.after(before).bounded(),
{
    if !(call is Take) {
        let full = before.plus(call.amount());
        lemma_wrap_small(full.reads);
        lemma_wrap_small(full.bytes_read);
        lemma_wrap_small(full.reads_cache);
        lemma_wrap_small(full.bytes_read_cache);
    }
}

/// On a coherent tracker a read, a batch of writes or a drain keeps
/// coherence as long as it runs neither read counter over, and so does a
/// merge of a report that is coherent in itself.
pub proof fn lemma_coherent_amount_keeps_coherence(before: Counters, call: Call)
    requires
        before.coherent(),
        call is Merge ==> call.amount().coherent(),
        before.reads + call.amount().reads <= u64::MAX,
        before.bytes_read + call.amount().bytes_read <= u64::MAX,
    ensures
        call.keeps_coherence(before),
{
}

/// After any sequence of calls that each keep coherence, a tracker that
/// was coherent at the start is coherent: no more reads are counted as
/// served by a cache than there were reads, and no more bytes.
pub proof fn lemma_replay_keeps_coherence(start: Counters, calls: Seq<Call>)
    requires
        start.bounded(),
        start.coherent(),
        steady(start, calls),
    ensures
        replay(start, calls).coherent(),
        replay(start, calls).bounded(),
    decreases calls.len(),
{
    if calls.len() > 0 {
        lemma_replay_keeps_coherence(start, calls.drop_last());
        lemma_call_keeps_coherence(replay(start, calls.drop_last()), calls.last());
    }
}

} // verus!
