use vstd::prelude::*;
use crate::actor::worker::{classify_all, FizzBuzzMessage};

verus! {

/// How many values one transfer moves: all that can be read, up to the room
/// there is to write.
pub open spec fn take_count(read_a: int, read_b: int, write_a: int, write_b: int) -> int {
    vstd::math::min(read_a + read_b, write_a + write_b)
}

/// How many messages a transfer writes into the first writable region.
pub open spec fn first_len(read_a: int, read_b: int, write_a: int, write_b: int) -> int {
    vstd::math::min(take_count(read_a, read_b, write_a, write_b), write_a)
}

/// The result of moving values from the two readable regions of the
/// generator's channel into the two writable regions of the logger's.
pub struct ZeroCopyTransfer {
    /// Messages for the first writable region.
    pub first: Vec<FizzBuzzMessage>,
    /// Messages for the second writable region.
    pub second: Vec<FizzBuzzMessage>,
    /// Values consumed, which is also the number of messages written.
    pub take_count: usize,
}

/// The transfer from readable regions `peek_a` and `peek_b` into writable
/// regions of `write_a` and `write_b` places gives `t`: as many values as can
/// be read and written, converted in order, the first writable region filled
/// first.
pub open spec fn transfers(peek_a: Seq<u64>, peek_b: Seq<u64>, write_a: int, write_b: int, t: ZeroCopyTransfer) -> bool {
    let (ra, rb) = (peek_a.len() as int, peek_b.len() as int);
    let source = peek_a + peek_b;
    &&& t.take_count == take_count(ra, rb, write_a, write_b)
    &&& t.first@ == classify_all(source.take(first_len(ra, rb, write_a, write_b)))
    &&& t.second@ == classify_all(source.subrange(first_len(ra, rb, write_a, write_b), t.take_count as int))
    &&& t.first@ + t.second@ == classify_all(source.take(t.take_count as int))
    &&& t.first.len() + t.second.len() == t.take_count
    &&& t.first.len() <= write_a
    &&& t.second.len() <= write_b
}

/// A transfer moves every value that can be both read and written, and fills
/// the first writable region before it writes into the second: it takes all
/// readable values when they fit the room, and fills all the room otherwise;
/// the first region gets as many as it holds, the second only the rest.
pub proof fn lemma_transfer_fills_in_order(read_a: int, read_b: int, write_a: int, write_b: int)
    requires
        0 <= read_a,
        0 <= read_b,
        0 <= write_a,
        0 <= write_b,
    ensures
        take_count(read_a, read_b, write_a, write_b) <= read_a + read_b,
        take_count(read_a, read_b, write_a, write_b) <= write_a + write_b,
        read_a + read_b <= write_a + write_b ==> take_count(read_a, read_b, write_a, write_b) == read_a + read_b,
        read_a + read_b >= write_a + write_b ==> take_count(read_a, read_b, write_a, write_b) == write_a + write_b,
        0 <= first_len(read_a, read_b, write_a, write_b) <= write_a,
        first_len(read_a, read_b, write_a, write_b) <= take_count(read_a, read_b, write_a, write_b),
        first_len(read_a, read_b, write_a, write_b) < write_a
            ==> first_len(read_a, read_b, write_a, write_b) == take_count(read_a, read_b, write_a, write_b),
        take_count(read_a, read_b, write_a, write_b) - first_len(read_a, read_b, write_a, write_b) <= write_b,
{
}

/// The value at position `k` of the readable regions taken one after the other.
fn source_value(peek_a: &[u64], peek_b: &[u64], k: usize) -> (v: u64)
    requires
        k < peek_a.len() + peek_b.len(),
    ensures
        v == (peek_a@ + peek_b@)[k as int],
{
    if k < peek_a.len() {
        peek_a[k]
    } else {
        peek_b[k - peek_a.len()]
    }
}

/// Converts the values of `peek_a` followed by `peek_b` into FizzBuzz
/// messages written into writable regions of `poke_a_len` and `poke_b_len`
/// places, first region first, for any way the ring regions are split.
pub fn transfer(peek_a: &[u64], peek_b: &[u64], poke_a_len: usize, poke_b_len: usize) -> (t: ZeroCopyTransfer)
    requires
        peek_a.len() + peek_b.len() <= usize::MAX,
        poke_a_len + poke_b_len <= usize::MAX,
    ensures
        transfers(peek_a@, peek_b@, poke_a_len as int, poke_b_len as int, t),
        t.take_count <= peek_a.len() + peek_b.len(),
        t.take_count <= poke_a_len + poke_b_len,
        t.take_count == peek_a.len() + peek_b.len() || t.take_count == poke_a_len + poke_b_len,
        t.first.len() + t.second.len() == t.take_count,
        t.first.len() <= poke_a_len,
        t.first.len() < poke_a_len ==> t.second.len() == 0,
{
    let ghost source = peek_a@ + peek_b@;
    let read_len = peek_a.len() + peek_b.len();
    let write_len = poke_a_len + poke_b_len;
    let take_count = if read_len < write_len { read_len } else { write_len };
    let first_len = if take_count < poke_a_len { take_count } else { poke_a_len };

    let mut first: Vec<FizzBuzzMessage> = Vec::with_capacity(first_len);
    let mut k: usize = 0;
    while k < first_len
        invariant
            source == peek_a@ + peek_b@,
            k <= first_len <= take_count <= read_len,
            read_len == peek_a.len() + peek_b.len(),
            first@ == classify_all(source.take(k as int)),
        decreases first_len - k,
    {
        first.push(FizzBuzzMessage::new(source_value(peek_a, peek_b, k)));
        proof {
            assert(source.take(k + 1) == source.take(k as int).push(source[k as int]));
        }
        k = k + 1;
    }

    let mut second: Vec<FizzBuzzMessage> = Vec::with_capacity(take_count - first_len);
    while k < take_count
        invariant
            source == peek_a@ + peek_b@,
            first_len <= k <= take_count <= read_len,
            read_len == peek_a.len() + peek_b.len(),
            second@ == classify_all(source.subrange(first_len as int, k as int)),
        decreases take_count - k,
    {
        second.push(FizzBuzzMessage::new(source_value(peek_a, peek_b, k)));
        proof {
            assert(source.subrange(first_len as int, k + 1)
                == source.subrange(first_len as int, k as int).push(source[k as int]));
        }
        k = k + 1;
    }
    proof {
        assert(source.take(first_len as int) + source.subrange(first_len as int, take_count as int)
            == source.take(take_count as int));
        assert(classify_all(source.take(first_len as int)) + classify_all(
            source.subrange(first_len as int, take_count as int),
        ) == classify_all(source.take(take_count as int)));
    }
    ZeroCopyTransfer { first, second, take_count }
}

/// Counters of the zero-copy worker.
pub struct WorkerState {
    /// Rounds that went ahead, on a heartbeat or on a wait that did not complete.
    pub heartbeats_processed: u64,
    /// Values taken from the generator's channel.
    pub values_processed: u64,
    /// Messages written into the logger's channel.
    pub messages_sent: u64,
}

impl WorkerState {
    /// The state a fresh worker starts from.
    pub fn new() -> (state: Self)
        ensures
            state.heartbeats_processed == 0,
            state.values_processed == 0,
            state.messages_sent == 0,
    {
        WorkerState { heartbeats_processed: 0, values_processed: 0, messages_sent: 0 }
    }

    /// Decides whether a round goes ahead: it does when a heartbeat was taken
    /// or when the wait before it did not complete cleanly, and the round is
    /// then counted; otherwise the worker's run ends.
    pub fn begin_round(&mut self, heartbeat_taken: bool, is_clean: bool) -> (proceed: bool)
        requires
            (heartbeat_taken || !is_clean) ==> old(self).heartbeats_processed < u64::MAX,
        ensures
            proceed == (heartbeat_taken || !is_clean),
            final(self).heartbeats_processed == old(self).heartbeats_processed + (if proceed { 1int } else { 0int }),
            final(self).values_processed == old(self).values_processed,
            final(self).messages_sent == old(self).messages_sent,
    {
        if heartbeat_taken || !is_clean {
            self.heartbeats_processed = self.heartbeats_processed + 1;
            true
        } else {
            false
        }
    }

    /// Counts a transfer: each value it took is processed and sent as one message.
    pub fn record_transfer(&mut self, t: &ZeroCopyTransfer)
        requires
            old(self).values_processed + t.take_count <= u64::MAX,
            old(self).messages_sent + t.take_count <= u64::MAX,
        ensures
            final(self).values_processed == old(self).values_processed + t.take_count,
            final(self).messages_sent == old(self).messages_sent + t.take_count,
            old(self).values_processed == old(self).messages_sent
                ==> final(self).values_processed == final(self).messages_sent,
            final(self).heartbeats_processed == old(self).heartbeats_processed,
    {
        self.values_processed = self.values_processed + t.take_count as u64;
        self.messages_sent = self.messages_sent + t.take_count as u64;
    }
}

} // verus!
