use vstd::prelude::*;
use crate::actor::generator::consecutive;

verus! {

/// How many heartbeats a burst holds at most.
pub const BURST_SIZE: usize = 32;

/// Counters of the heartbeat actor.
pub struct HeartbeatState {
    /// The next heartbeat value, which is also how many heartbeats are spoken for.
    pub count: u64,
    /// Heartbeats that the channel accepted.
    pub beats_sent: u64,
    /// How many heartbeats a burst holds at most.
    pub burst_size: usize,
}

/// How many heartbeats the next burst holds, of `beats` in all when `count`
/// are already spoken for.
pub open spec fn burst_len(burst_size: int, count: int, beats: int) -> int {
    vstd::math::min(burst_size, beats - count)
}

/// The heartbeat state after a burst is prepared.
pub open spec fn after_burst(s: HeartbeatState, beats: u64) -> HeartbeatState {
    HeartbeatState {
        count: (s.count + burst_len(s.burst_size as int, s.count as int, beats as int)) as u64,
        ..s
    }
}

/// The heartbeat state after the channel accepted `sent` of a burst of `len`.
pub open spec fn after_sent(s: HeartbeatState, len: int, sent: int) -> HeartbeatState {
    HeartbeatState {
        count: (s.count - (len - sent)) as u64,
        beats_sent: (s.beats_sent + sent) as u64,
        ..s
    }
}

impl HeartbeatState {
    /// The state a fresh heartbeat actor starts from.
    pub fn new() -> (state: Self)
        ensures
            state.count == 0,
            state.beats_sent == 0,
            state.burst_size == BURST_SIZE,
    {
        HeartbeatState { count: 0, beats_sent: 0, burst_size: BURST_SIZE }
    }

    /// Builds the next burst of heartbeat values: the next `burst_size` values
    /// from `count` on, or fewer where `beats` ends first; `count` moves past them.
    pub fn prepare_burst(&mut self, beats: u64) -> (burst: Vec<u64>)
        requires
            old(self).count <= beats,
        ensures
            burst@ == consecutive(old(self).count as int, burst_len(old(self).burst_size as int, old(self).count as int, beats as int)),
            *final(self) == after_burst(*old(self), beats),
            final(self).count == old(self).count + burst@.len() <= beats,
            burst@.len() <= old(self).burst_size,
            old(self).count + old(self).burst_size <= beats ==> burst@.len() == old(self).burst_size,
            old(self).count + old(self).burst_size > beats ==> burst@.len() == beats - old(self).count,
    {
        let mut burst: Vec<u64> = Vec::new();
        let remaining = beats - self.count;
        let limit: u64 = if (self.burst_size as u64) < remaining { self.burst_size as u64 } else { remaining };
        let ghost start = self.count;
        let mut i: u64 = 0;
        while i < limit
            invariant
                i <= limit,
                limit <= beats - start,
                self.count == start + i,
                self.count <= beats,
                burst@ == consecutive(start as int, i as int),
                self.beats_sent == old(self).beats_sent,
                self.burst_size == old(self).burst_size,
            ensures
                i == limit,
                self.count == start + i,
                self.count <= beats,
                burst@ == consecutive(start as int, i as int),
                self.beats_sent == old(self).beats_sent,
                self.burst_size == old(self).burst_size,
            decreases limit - i,
        {
            if self.count >= beats {
                break;
            }
            burst.push(self.count);
            self.count = self.count + 1;
            i = i + 1;
        }
        burst
    }

    /// Counts how many heartbeats of a burst of `burst_len` the channel
    /// accepted, and takes back the values of those it did not, so that they
    /// go out in the next burst.
    pub fn record_sent(&mut self, burst_len: usize, sent: usize)
        requires
            sent <= burst_len <= old(self).count,
            old(self).beats_sent + sent <= u64::MAX,
        ensures
            *final(self) == after_sent(*old(self), burst_len as int, sent as int),
    {
        self.beats_sent = self.beats_sent + sent as u64;
        if sent < burst_len {
            self.count = self.count - (burst_len - sent) as u64;
        }
    }

    /// Whether all `beats` heartbeats are spoken for, so that the actor asks
    /// the pipeline to stop.
    pub fn is_complete(&self, beats: u64) -> (done: bool)
        ensures
            done == (self.count >= beats),
    {
        self.count >= beats
    }
}

/// A burst is full whenever enough beats remain: it holds `burst_size`
/// beats when at least that many remain, and all that remain otherwise.
pub proof fn lemma_burst_is_full_when_beats_remain(burst_size: int, count: int, beats: int)
    requires
        0 <= burst_size,
        0 <= count <= beats,
    ensures
        0 <= burst_len(burst_size, count, beats) <= burst_size,
        burst_len(burst_size, count, beats) <= beats - count,
        beats - count >= burst_size ==> burst_len(burst_size, count, beats) == burst_size,
        beats - count < burst_size ==> burst_len(burst_size, count, beats) == beats - count,
{
}

/// A round of the heartbeat actor (prepare a burst, send it, count what the
/// channel accepted) keeps `count` equal to `beats_sent` and within `beats`,
/// and the heartbeats that go out in the round are the next ones in order:
/// taken over all rounds, the values sent are 0, 1, 2, ... with no gap and no
/// repeat. The actor is complete exactly when `beats` heartbeats have been
/// accepted.
pub proof fn lemma_round_sends_next_beats(s: HeartbeatState, beats: u64, sent: int)
    requires
        s.count == s.beats_sent,
        s.count <= beats,
        0 <= sent <= burst_len(s.burst_size as int, s.count as int, beats as int),
    ensures
        ({
            let len = burst_len(s.burst_size as int, s.count as int, beats as int);
            let after = after_sent(after_burst(s, beats), len, sent);
            &&& after.count == after.beats_sent
            &&& after.count <= beats
            &&& after.beats_sent == s.beats_sent + sent
            &&& (after.count >= beats) == (after.beats_sent >= beats)
            &&& consecutive(s.count as int, len).take(sent) == consecutive(s.beats_sent as int, sent)
        }),
{
    let len = burst_len(s.burst_size as int, s.count as int, beats as int);
    assert(consecutive(s.count as int, len).take(sent) =~= consecutive(s.beats_sent as int, sent));
}

} // verus!
