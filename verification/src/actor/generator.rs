use vstd::prelude::*;

verus! {

/// The values `start`, `start + 1`, ..., `start + len - 1`.
pub open spec fn consecutive(start: int, len: int) -> Seq<u64> {
    Seq::new(len as nat, |k: int| (start + k) as u64)
}

/// Counter of the generator: how many values its channel has accepted.
pub struct GeneratorState {
    pub total_generated: u64,
}

/// The values written into the two writable regions of the generator's
/// channel, and the value that comes next.
pub struct GeneratedBatch {
    /// Values for the first writable region.
    pub first: Vec<u64>,
    /// Values for the second writable region.
    pub second: Vec<u64>,
    /// The value after the last one written.
    pub next_value: u64,
}

/// How much room the generator waits for before it writes: half of its
/// channel, so that it fills one half while the worker drains the other.
pub fn vacancy_threshold(capacity: usize) -> (room: usize)
    ensures
        room == capacity / 2,
{
    capacity / 2
}

/// Fills writable regions of `first_len` and `second_len` places with
/// consecutive values from `next_value` on, the first region first.
pub fn fill_batch(next_value: u64, first_len: usize, second_len: usize) -> (batch: GeneratedBatch)
    requires
        next_value + first_len + second_len <= u64::MAX,
    ensures
        batch.first@ == consecutive(next_value as int, first_len as int),
        batch.second@ == consecutive(next_value + first_len, second_len as int),
        batch.first@ + batch.second@ == consecutive(next_value as int, first_len + second_len),
        batch.next_value == next_value + first_len + second_len,
{
    let mut value = next_value;
    let mut first: Vec<u64> = Vec::with_capacity(first_len);
    let mut i: usize = 0;
    while i < first_len
        invariant
            i <= first_len,
            next_value + first_len + second_len <= u64::MAX,
            value == next_value + i,
            first@ == consecutive(next_value as int, i as int),
        decreases first_len - i,
    {
        first.push(value);
        value = value + 1;
        i = i + 1;
    }
    let mut second: Vec<u64> = Vec::with_capacity(second_len);
    let mut i: usize = 0;
    while i < second_len
        invariant
            i <= second_len,
            next_value + first_len + second_len <= u64::MAX,
            value == next_value + first_len + i,
            second@ == consecutive(next_value + first_len, i as int),
        decreases second_len - i,
    {
        second.push(value);
        value = value + 1;
        i = i + 1;
    }
    proof {
        assert(first@ + second@ =~= consecutive(next_value as int, first_len + second_len));
    }
    GeneratedBatch { first, second, next_value: value }
}

impl GeneratorState {
    /// The state a fresh generator starts from.
    pub fn new() -> (state: Self)
        ensures
            state.total_generated == 0,
    {
        GeneratorState { total_generated: 0 }
    }

    /// Counts the values that the channel accepted from a batch.
    pub fn record_sent(&mut self, sent: usize)
        requires
            old(self).total_generated + sent <= u64::MAX,
        ensures
            final(self).total_generated == old(self).total_generated + sent,
    {
        self.total_generated = self.total_generated + sent as u64;
    }
}

/// Filling batch after batch, each from the value the one before ended at,
/// writes one unbroken run of consecutive values.
pub proof fn lemma_batches_continue(start: int, len1: int, len2: int)
    requires
        0 <= len1,
        0 <= len2,
    ensures
        consecutive(start, len1) + consecutive(start + len1, len2) == consecutive(start, len1 + len2),
{
    assert(consecutive(start, len1) + consecutive(start + len1, len2) =~= consecutive(start, len1 + len2));
}

} // verus!
