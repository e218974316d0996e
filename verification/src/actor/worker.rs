use vstd::prelude::*;

verus! {

/// What the worker sends to the logger for one value.
#[derive(Clone, Copy, Debug, PartialEq, Eq)]
pub enum FizzBuzzMessage {
    /// The value is divisible by both 3 and 5.
    FizzBuzz,
    /// The value is divisible by 3 but not by 5.
    Fizz,
    /// The value is divisible by 5 but not by 3.
    Buzz,
    /// The value is divisible by neither 3 nor 5.
    Value(u64),
}

/// The message that FizzBuzz rules assign to `value`.
pub open spec fn classify(value: u64) -> FizzBuzzMessage {
    if value % 3 == 0 && value % 5 == 0 {
        FizzBuzzMessage::FizzBuzz
    } else if value % 3 == 0 {
        FizzBuzzMessage::Fizz
    } else if value % 5 == 0 {
        FizzBuzzMessage::Buzz
    } else {
        FizzBuzzMessage::Value(value)
    }
}

impl FizzBuzzMessage {
    /// The FizzBuzz message for `value`, chosen from its remainder modulo 15.
    pub fn new(value: u64) -> (msg: Self)
        ensures
            msg == classify(value),
    {
        match value % 15 {
            0 => FizzBuzzMessage::FizzBuzz,
            3 => FizzBuzzMessage::Fizz,
            5 => FizzBuzzMessage::Buzz,
            6 => FizzBuzzMessage::Fizz,
            9 => FizzBuzzMessage::Fizz,
            10 => FizzBuzzMessage::Buzz,
            12 => FizzBuzzMessage::Fizz,
            _ => FizzBuzzMessage::Value(value),
        }
    }
}

impl Default for FizzBuzzMessage {
    fn default() -> (msg: Self)
        ensures
            msg == FizzBuzzMessage::FizzBuzz,
    {
        FizzBuzzMessage::FizzBuzz
    }
}

/// How many half-channel batches the worker handles before it waits again.
pub const SLICES: usize = 2;

/// The FizzBuzz messages of `values`, one for each, in order.
pub open spec fn classify_all(values: Seq<u64>) -> Seq<FizzBuzzMessage> {
    values.map_values(|v: u64| classify(v))
}

/// Converts a batch of values into their FizzBuzz messages, keeping the order.
pub fn convert_batch(values: &[u64]) -> (msgs: Vec<FizzBuzzMessage>)
    ensures
        msgs@ == classify_all(values@),
{
    let mut msgs: Vec<FizzBuzzMessage> = Vec::with_capacity(values.len());
    let mut i: usize = 0;
    while i < values.len()
        invariant
            i <= values.len(),
            msgs@ == classify_all(values@.take(i as int)),
        decreases values.len() - i,
    {
        msgs.push(FizzBuzzMessage::new(values[i]));
        proof {
            assert(values@.take(i + 1) == values@.take(i as int).push(values@[i as int]));
        }
        i = i + 1;
    }
    proof {
        assert(values@.take(values.len() as int) == values@);
    }
    msgs
}

/// How many values a slice takes: no more than wait in the generator's
/// channel, no more than there is room for in the logger's, and no more than
/// one batch.
pub open spec fn slice_len(batch_size: int, avail: int, vacant: int) -> int {
    vstd::math::min(vstd::math::min(avail, vacant), batch_size)
}

/// One wake-up of the double-buffering worker: the slices it may still run,
/// whether the wait before it completed cleanly, whether it has stopped,
/// whether a slice is under way, the batch limit, and how many values its
/// slices have taken.
pub struct WakeUp {
    slices_left: usize,
    is_clean: bool,
    stopped: bool,
    slice_open: bool,
    batch_size: usize,
    taken: usize,
}

impl WakeUp {
    pub closed spec fn slices_left(&self) -> nat {
        self.slices_left as nat
    }

    pub closed spec fn is_clean(&self) -> bool {
        self.is_clean
    }

    pub closed spec fn stopped(&self) -> bool {
        self.stopped
    }

    pub closed spec fn slice_open(&self) -> bool {
        self.slice_open
    }

    pub closed spec fn batch_size(&self) -> nat {
        self.batch_size as nat
    }

    pub closed spec fn taken(&self) -> nat {
        self.taken as nat
    }

    /// No more than `SLICES` slices, and each finished slice took at most one
    /// batch; an open slice still has a batch to take.
    pub closed spec fn inv(&self) -> bool {
        &&& self.slices_left <= SLICES
        &&& self.batch_size * SLICES <= usize::MAX
        &&& self.taken + (if self.slice_open { self.batch_size as int } else { 0int })
            <= (SLICES - self.slices_left) * self.batch_size
    }

    /// Whether another slice may run in this wake-up.
    pub fn has_slice(&self) -> (more: bool)
        ensures
            more == (self.slices_left() > 0 && !self.stopped()),
    {
        self.slices_left > 0 && !self.stopped
    }

    /// The most values one slice of this wake-up may take.
    pub fn batch_limit(&self) -> (limit: usize)
        ensures
            limit == self.batch_size(),
    {
        self.batch_size
    }

    /// The values the slices of this wake-up have taken so far.
    pub fn values_taken(&self) -> (taken: usize)
        ensures
            taken == self.taken(),
    {
        self.taken
    }
}

/// Counters of the double-buffering worker.
pub struct WorkerState {
    /// Slices that went ahead, on a heartbeat or on a wait that did not complete.
    pub heartbeats_processed: u64,
    /// Values taken from the generator's channel.
    pub values_processed: u64,
    /// Messages handed to the logger's channel.
    pub messages_sent: u64,
    /// The most values taken in one slice: half of the generator channel.
    pub batch_size: usize,
}

impl WorkerState {
    /// The state a fresh worker starts from, for a generator channel of
    /// `generator_capacity` messages.
    pub fn new(generator_capacity: usize) -> (state: Self)
        ensures
            state.heartbeats_processed == 0,
            state.values_processed == 0,
            state.messages_sent == 0,
            state.batch_size == generator_capacity / SLICES,
    {
        WorkerState {
            heartbeats_processed: 0,
            values_processed: 0,
            messages_sent: 0,
            batch_size: generator_capacity / SLICES,
        }
    }

    /// Opens a wake-up after a wait that completed cleanly or not: up to
    /// `SLICES` slices may follow, each taking at most one batch.
    pub fn wake(&self, is_clean: bool) -> (wake: WakeUp)
        requires
            self.batch_size <= usize::MAX / SLICES,
        ensures
            wake.inv(),
            wake.slices_left() == SLICES,
            !wake.stopped(),
            !wake.slice_open(),
            wake.taken() == 0,
            wake.batch_size() == self.batch_size,
            wake.is_clean() == is_clean,
    {
        WakeUp { slices_left: SLICES, is_clean, stopped: false, slice_open: false, batch_size: self.batch_size, taken: 0 }
    }

    /// Decides whether the next slice of a wake-up goes ahead: it does when
    /// a heartbeat was taken or when the wait did not complete cleanly, and
    /// the slice is then counted; otherwise the wake-up stops. Either way one
    /// of its slices is used up.
    pub fn begin_slice(&mut self, wake: &mut WakeUp, heartbeat_taken: bool) -> (proceed: bool)
        requires
            old(wake).inv(),
            old(wake).slices_left() > 0,
            !old(wake).stopped(),
            (heartbeat_taken || !old(wake).is_clean()) ==> old(self).heartbeats_processed < u64::MAX,
        ensures
            proceed == (heartbeat_taken || !old(wake).is_clean()),
            final(self).heartbeats_processed == old(self).heartbeats_processed + (if proceed { 1int } else { 0int }),
            final(self).values_processed == old(self).values_processed,
            final(self).messages_sent == old(self).messages_sent,
            final(self).batch_size == old(self).batch_size,
            final(wake).inv(),
            final(wake).slices_left() == old(wake).slices_left() - 1,
            final(wake).stopped() == !proceed,
            final(wake).slice_open() == proceed,
            final(wake).taken() == old(wake).taken(),
            final(wake).batch_size() == old(wake).batch_size(),
            final(wake).is_clean() == old(wake).is_clean(),
    {
        let proceed = heartbeat_taken || !wake.is_clean;
        proof {
            let (left, bs) = (wake.slices_left as int, wake.batch_size as int);
            assert((SLICES - (left - 1)) * bs == (SLICES - left) * bs + bs) by (nonlinear_arith);
        }
        wake.slices_left = wake.slices_left - 1;
        wake.stopped = !proceed;
        wake.slice_open = proceed;
        if proceed {
            self.heartbeats_processed = self.heartbeats_processed + 1;
        }
        proceed
    }

    /// How many values a slice takes when `avail` values wait in the
    /// generator's channel and `vacant` places are free in the logger's:
    /// no more than either, and no more than one batch.
    pub fn batch_len(&self, avail: usize, vacant: usize) -> (len: usize)
        ensures
            len == slice_len(self.batch_size as int, avail as int, vacant as int),
            len <= avail,
            len <= vacant,
            len <= self.batch_size,
            len == avail || len == vacant || len == self.batch_size,
    {
        let available = if avail < vacant { avail } else { vacant };
        if available < self.batch_size { available } else { self.batch_size }
    }

    /// Counts the batch of the slice that went ahead, of which `taken`
    /// values were converted and all `sent` messages went out (room for them
    /// was checked before the wait); the slice is then closed.
    pub fn record_batch(&mut self, wake: &mut WakeUp, taken: usize, sent: usize)
        requires
            old(wake).inv(),
            old(wake).slice_open(),
            taken <= old(wake).batch_size(),
            sent == taken,
            old(self).values_processed + taken <= u64::MAX,
            old(self).messages_sent + sent <= u64::MAX,
        ensures
            final(self).values_processed == old(self).values_processed + taken,
            final(self).messages_sent == old(self).messages_sent + sent,
            old(self).values_processed == old(self).messages_sent
                ==> final(self).values_processed == final(self).messages_sent,
            final(self).heartbeats_processed == old(self).heartbeats_processed,
            final(self).batch_size == old(self).batch_size,
            final(wake).inv(),
            !final(wake).slice_open(),
            final(wake).taken() == old(wake).taken() + taken,
            final(wake).slices_left() == old(wake).slices_left(),
            final(wake).stopped() == old(wake).stopped(),
            final(wake).batch_size() == old(wake).batch_size(),
            final(wake).is_clean() == old(wake).is_clean(),
    {
        proof {
            let (left, bs) = (wake.slices_left as int, wake.batch_size as int);
            assert((SLICES - left) * bs <= SLICES * bs) by (nonlinear_arith)
                requires
                    0 <= left <= SLICES,
                    0 <= bs,
            ;
        }
        wake.taken = wake.taken + taken;
        wake.slice_open = false;
        self.values_processed = self.values_processed + taken as u64;
        self.messages_sent = self.messages_sent + sent as u64;
    }
}

/// A slice takes the least of the three limits: never more values than
/// wait in the generator's channel, never more than the logger's channel has
/// room for, never more than a batch, and as many as the tightest of them.
pub proof fn lemma_slice_len_is_least(batch_size: int, avail: int, vacant: int)
    ensures
        slice_len(batch_size, avail, vacant) <= avail,
        slice_len(batch_size, avail, vacant) <= vacant,
        slice_len(batch_size, avail, vacant) <= batch_size,
        slice_len(batch_size, avail, vacant) == avail || slice_len(batch_size, avail, vacant) == vacant
            || slice_len(batch_size, avail, vacant) == batch_size,
{
}

/// The slices of one wake-up never take more than the generator channel
/// holds: there are at most two, each takes at most one batch, and a batch is
/// half the channel.
pub proof fn lemma_wake_up_fits_channel(wake: WakeUp, generator_capacity: usize)
    requires
        wake.inv(),
        wake.batch_size() == generator_capacity / SLICES,
    ensures
        wake.taken() <= generator_capacity,
{
    let (left, bs) = (wake.slices_left() as int, wake.batch_size() as int);
    assert((SLICES - left) * bs <= SLICES * bs) by (nonlinear_arith)
        requires
            0 <= left <= SLICES,
            0 <= bs,
    ;
}

} // verus!
