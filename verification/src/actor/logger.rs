use vstd::prelude::*;
use crate::actor::worker::FizzBuzzMessage;

verus! {

/// Counters of the logger: how many messages it has seen, and how many of
/// each kind.
#[derive(Clone, Copy, Debug, PartialEq, Eq)]
pub struct LoggerState {
    pub messages_logged: u64,
    pub fizz_count: u64,
    pub buzz_count: u64,
    pub fizzbuzz_count: u64,
    pub value_count: u64,
}

/// The counts of the kinds add up to the count of messages.
pub open spec fn well_formed(s: LoggerState) -> bool {
    s.fizz_count + s.buzz_count + s.fizzbuzz_count + s.value_count == s.messages_logged
}

pub open spec fn is_fizz(m: FizzBuzzMessage) -> bool {
    m is Fizz
}

pub open spec fn is_buzz(m: FizzBuzzMessage) -> bool {
    m is Buzz
}

pub open spec fn is_fizzbuzz(m: FizzBuzzMessage) -> bool {
    m is FizzBuzz
}

pub open spec fn is_value(m: FizzBuzzMessage) -> bool {
    m is Value
}

/// How many of `items` satisfy `p`.
pub open spec fn count_where(items: Seq<FizzBuzzMessage>, p: spec_fn(FizzBuzzMessage) -> bool) -> nat
    decreases items.len(),
{
    if items.len() == 0 {
        0
    } else {
        count_where(items.drop_last(), p) + (if p(items.last()) { 1nat } else { 0nat })
    }
}

/// The predicate `is_fizz` as a value.
pub open spec fn fizz_kind() -> spec_fn(FizzBuzzMessage) -> bool {
    |m: FizzBuzzMessage| is_fizz(m)
}

pub open spec fn fizz_in(items: Seq<FizzBuzzMessage>) -> nat {
    count_where(items, fizz_kind())
}

/// The predicate `is_buzz` as a value.
pub open spec fn buzz_kind() -> spec_fn(FizzBuzzMessage) -> bool {
    |m: FizzBuzzMessage| is_buzz(m)
}

pub open spec fn buzz_in(items: Seq<FizzBuzzMessage>) -> nat {
    count_where(items, buzz_kind())
}

/// The predicate `is_fizzbuzz` as a value.
pub open spec fn fizzbuzz_kind() -> spec_fn(FizzBuzzMessage) -> bool {
    |m: FizzBuzzMessage| is_fizzbuzz(m)
}

pub open spec fn fizzbuzz_in(items: Seq<FizzBuzzMessage>) -> nat {
    count_where(items, fizzbuzz_kind())
}

/// The predicate `is_value` as a value.
pub open spec fn value_kind() -> spec_fn(FizzBuzzMessage) -> bool {
    |m: FizzBuzzMessage| is_value(m)
}

pub open spec fn value_in(items: Seq<FizzBuzzMessage>) -> nat {
    count_where(items, value_kind())
}

/// The logger's counters after it has seen `items`.
pub open spec fn tally_after(s: LoggerState, items: Seq<FizzBuzzMessage>) -> LoggerState {
    LoggerState {
        messages_logged: (s.messages_logged + items.len()) as u64,
        fizz_count: (s.fizz_count + fizz_in(items)) as u64,
        buzz_count: (s.buzz_count + buzz_in(items)) as u64,
        fizzbuzz_count: (s.fizzbuzz_count + fizzbuzz_in(items)) as u64,
        value_count: (s.value_count + value_in(items)) as u64,
    }
}

/// Tallying `items` into `s` keeps every counter within range.
pub open spec fn fits(s: LoggerState, items: Seq<FizzBuzzMessage>) -> bool {
    &&& s.messages_logged + items.len() <= u64::MAX
    &&& s.fizz_count + fizz_in(items) <= u64::MAX
    &&& s.buzz_count + buzz_in(items) <= u64::MAX
    &&& s.fizzbuzz_count + fizzbuzz_in(items) <= u64::MAX
    &&& s.value_count + value_in(items) <= u64::MAX
}

/// Whether the logger reports its counters when it has seen `total`
/// messages: for each of the first fifteen, then at every multiple of 2^24.
pub open spec fn is_log_point(total: int) -> bool {
    total < 16 || total % 0x100_0000 == 0
}

/// The counters the logger reports while it sees `items`, in order: one
/// snapshot for each message after which the total is a log point.
pub open spec fn reports(s: LoggerState, items: Seq<FizzBuzzMessage>) -> Seq<LoggerState>
    decreases items.len(),
{
    if items.len() == 0 {
        Seq::empty()
    } else {
        let before = reports(s, items.drop_last());
        if is_log_point(s.messages_logged + items.len()) {
            before.push(tally_after(s, items))
        } else {
            before
        }
    }
}

/// The digits of `d`, for `d` below ten.
pub open spec fn digit_text(d: int) -> Seq<char> {
    if d == 0 {
        "0"@
    } else if d == 1 {
        "1"@
    } else if d == 2 {
        "2"@
    } else if d == 3 {
        "3"@
    } else if d == 4 {
        "4"@
    } else if d == 5 {
        "5"@
    } else if d == 6 {
        "6"@
    } else if d == 7 {
        "7"@
    } else if d == 8 {
        "8"@
    } else {
        "9"@
    }
}

/// The decimal digits of `n`, most significant first, with no leading zero.
pub open spec fn decimal(n: nat) -> Seq<char>
    decreases n,
{
    if n < 10 {
        digit_text(n as int)
    } else {
        decimal(n / 10) + digit_text((n % 10) as int)
    }
}

/// Whether `c` is one of the characters `0` to `9`.
pub open spec fn is_digit(c: char) -> bool {
    '0' as int <= c as int <= '9' as int
}

/// The number that the decimal numeral `text` reads as, most significant
/// digit first.
pub open spec fn numeral_value(text: Seq<char>) -> int
    decreases text.len(),
{
    if text.len() == 0 {
        0
    } else {
        numeral_value(text.drop_last()) * 10 + (text.last() as int - '0' as int)
    }
}

proof fn lemma_digit_text(d: int)
    requires
        0 <= d < 10,
    ensures
        digit_text(d).len() == 1,
        digit_text(d)[0] as int == '0' as int + d,
{
    reveal_strlit("0");
    reveal_strlit("1");
    reveal_strlit("2");
    reveal_strlit("3");
    reveal_strlit("4");
    reveal_strlit("5");
    reveal_strlit("6");
    reveal_strlit("7");
    reveal_strlit("8");
    reveal_strlit("9");
}

/// The text written for a number is its base-10 numeral: it is made of
/// digits only, reads back as the number, and starts with `0` only when the
/// number is zero, so it has exactly as many characters as the number has
/// decimal digits.
pub proof fn lemma_decimal_is_numeral(n: nat)
    ensures
        decimal(n).len() >= 1,
        forall|i: int| 0 <= i < decimal(n).len() ==> is_digit(#[trigger] decimal(n)[i]),
        numeral_value(decimal(n)) == n,
        n > 0 ==> decimal(n)[0] != '0',
    decreases n,
{
    if n < 10 {
        lemma_digit_text(n as int);
        assert(decimal(n).drop_last() =~= Seq::<char>::empty());
        assert(numeral_value(decimal(n)) == numeral_value(decimal(n).drop_last()) * 10 + (decimal(n).last() as int - '0' as int));
    } else {
        lemma_decimal_is_numeral(n / 10);
        lemma_digit_text((n % 10) as int);
        let head = decimal(n / 10);
        let text = decimal(n);
        assert(text == head + digit_text((n % 10) as int));
        assert(text.drop_last() =~= head);
        assert(text.last() == digit_text((n % 10) as int)[0]);
        assert forall|i: int| 0 <= i < text.len() implies is_digit(#[trigger] text[i]) by {
            if i < head.len() {
                assert(text[i] == head[i]);
            }
        }
        assert(text[0] == head[0]);
        assert(numeral_value(text) == numeral_value(head) * 10 + (n % 10));
        assert((n / 10) * 10 + n % 10 == n);
    }
}

/// The line the logger writes with a snapshot of its counters.
pub open spec fn progress_text(s: LoggerState) -> Seq<char> {
    "Logger: "@ + decimal(s.messages_logged as nat) + " messages processed (F:"@ + decimal(s.fizz_count as nat)
        + ", B:"@ + decimal(s.buzz_count as nat) + ", FB:"@ + decimal(s.fizzbuzz_count as nat) + ", V:"@
        + decimal(s.value_count as nat) + ")"@
}

/// The line the logger writes when it shuts down.
pub open spec fn shutdown_text(s: LoggerState) -> Seq<char> {
    "Logger shutting down. Total: "@ + decimal(s.messages_logged as nat) + " (F:"@ + decimal(s.fizz_count as nat)
        + ", B:"@ + decimal(s.buzz_count as nat) + ", FB:"@ + decimal(s.fizzbuzz_count as nat) + ", V:"@
        + decimal(s.value_count as nat) + ")"@
}

fn digit_str(d: u64) -> (text: &'static str)
    requires
        d < 10,
    ensures
        text@ == digit_text(d as int),
{
    if d == 0 {
        "0"
    } else if d == 1 {
        "1"
    } else if d == 2 {
        "2"
    } else if d == 3 {
        "3"
    } else if d == 4 {
        "4"
    } else if d == 5 {
        "5"
    } else if d == 6 {
        "6"
    } else if d == 7 {
        "7"
    } else if d == 8 {
        "8"
    } else {
        "9"
    }
}

fn push_decimal(line: &mut String, n: u64)
    ensures
        final(line)@ == old(line)@ + decimal(n as nat),
    decreases n,
{
    if n >= 10 {
        push_decimal(line, n / 10);
    }
    line.append(digit_str(n % 10));
    proof {
        if n >= 10 {
            assert(old(line)@ + decimal((n / 10) as nat) + digit_text((n % 10) as int)
                == old(line)@ + decimal(n as nat));
        }
    }
}

/// Whether the logger reports its counters when it has seen `total` messages.
pub fn should_log(total: u64) -> (report: bool)
    ensures
        report == is_log_point(total as int),
{
    proof {
        assert(1u64 << 24u64 == 0x100_0000) by (bit_vector);
        assert(total & 0xff_ffffu64 == total % 0x100_0000) by (bit_vector);
    }
    total < 16 || (total & ((1u64 << 24u64) - 1)) == 0
}

/// How many messages the logger waits for before it drains its channel:
/// half of the channel.
pub fn batch_threshold(capacity: usize) -> (count: usize)
    ensures
        count == capacity / 2,
{
    capacity / 2
}

/// Every message is of exactly one kind, so the counts of the kinds add up
/// to the number of messages.
proof fn lemma_kinds_partition(items: Seq<FizzBuzzMessage>)
    ensures
        fizz_in(items) + buzz_in(items) + fizzbuzz_in(items) + value_in(items) == items.len(),
    decreases items.len(),
{
    if items.len() > 0 {
        lemma_kinds_partition(items.drop_last());
    }
}

/// Counting over two runs back to back adds the counts of each.
proof fn lemma_count_concat(a: Seq<FizzBuzzMessage>, b: Seq<FizzBuzzMessage>, p: spec_fn(FizzBuzzMessage) -> bool)
    ensures
        count_where(a + b, p) == count_where(a, p) + count_where(b, p),
    decreases b.len(),
{
    if b.len() == 0 {
        assert(a + b == a);
    } else {
        assert((a + b).drop_last() == a + b.drop_last());
        assert((a + b).last() == b.last());
        lemma_count_concat(a, b.drop_last(), p);
    }
}

/// Tallying a run of messages in two parts, the second from the counters the
/// first left, gives the same counters and the same reports, in the same
/// order, as tallying the run at once: how the channel splits what the
/// logger drains into slices and batches does not change what it logs.
pub proof fn lemma_consume_split(s: LoggerState, a: Seq<FizzBuzzMessage>, b: Seq<FizzBuzzMessage>)
    requires
        fits(s, a + b),
    ensures
        fits(s, a),
        fits(tally_after(s, a), b),
        tally_after(tally_after(s, a), b) == tally_after(s, a + b),
        reports(s, a) + reports(tally_after(s, a), b) == reports(s, a + b),
    decreases b.len(),
{
    lemma_count_concat(a, b, fizz_kind());
    lemma_count_concat(a, b, buzz_kind());
    lemma_count_concat(a, b, fizzbuzz_kind());
    lemma_count_concat(a, b, value_kind());
    if b.len() == 0 {
        assert(a + b == a);
        assert(reports(s, a) + reports(tally_after(s, a), b) == reports(s, a));
    } else {
        assert((a + b).drop_last() == a + b.drop_last());
        assert((a + b).take((a + b).len() - 1) == a + b.drop_last());
        lemma_prefix_counts(a + b, (a + b).len() - 1);
        lemma_consume_split(s, a, b.drop_last());
    }
}

proof fn lemma_prefix_counts(items: Seq<FizzBuzzMessage>, n: int)
    requires
        0 <= n <= items.len(),
    ensures
        fizz_in(items.take(n)) <= fizz_in(items),
        buzz_in(items.take(n)) <= buzz_in(items),
        fizzbuzz_in(items.take(n)) <= fizzbuzz_in(items),
        value_in(items.take(n)) <= value_in(items),
{
    assert(items.take(n) + items.skip(n) == items);
    lemma_count_concat(items.take(n), items.skip(n), fizz_kind());
    lemma_count_concat(items.take(n), items.skip(n), buzz_kind());
    lemma_count_concat(items.take(n), items.skip(n), fizzbuzz_kind());
    lemma_count_concat(items.take(n), items.skip(n), value_kind());
}

/// Tallies the kinds of `items` into `state`, and returns a snapshot of the
/// counters after each message whose running total is a log point.
pub fn consume_items(state: &mut LoggerState, items: &[FizzBuzzMessage]) -> (logged: Vec<LoggerState>)
    requires
        fits(*old(state), items@),
    ensures
        *final(state) == tally_after(*old(state), items@),
        well_formed(*old(state)) ==> well_formed(*final(state)),
        logged@ == reports(*old(state), items@),
{
    let start: LoggerState = *state;
    let mut fizz: u64 = 0;
    let mut buzz: u64 = 0;
    let mut fizzbuzz: u64 = 0;
    let mut value: u64 = 0;
    let mut total: u64 = state.messages_logged;
    let mut logged: Vec<LoggerState> = Vec::new();
    let mut i: usize = 0;
    proof {
        lemma_prefix_counts(items@, 0);
    }
    while i < items.len()
        invariant
            start == *old(state),
            i <= items.len(),
            fits(start, items@),
            fizz_in(items@.take(i as int)) <= fizz_in(items@),
            buzz_in(items@.take(i as int)) <= buzz_in(items@),
            fizzbuzz_in(items@.take(i as int)) <= fizzbuzz_in(items@),
            value_in(items@.take(i as int)) <= value_in(items@),
            fizz == fizz_in(items@.take(i as int)),
            buzz == buzz_in(items@.take(i as int)),
            fizzbuzz == fizzbuzz_in(items@.take(i as int)),
            value == value_in(items@.take(i as int)),
            total == start.messages_logged + i,
            logged@ == reports(start, items@.take(i as int)),
        decreases items.len() - i,
    {
        let msg = items[i];
        proof {
            assert(items@.take(i + 1).drop_last() == items@.take(i as int));
            assert(items@.take(i + 1).last() == msg);
            lemma_kinds_partition(items@.take(i + 1));
            lemma_prefix_counts(items@, i + 1);
        }
        match msg {
            FizzBuzzMessage::Fizz => fizz = fizz + 1,
            FizzBuzzMessage::Buzz => buzz = buzz + 1,
            FizzBuzzMessage::FizzBuzz => fizzbuzz = fizzbuzz + 1,
            FizzBuzzMessage::Value(_) => value = value + 1,
        }
        total = total + 1;
        if should_log(total) {
            logged.push(
                LoggerState {
                    messages_logged: total,
                    fizz_count: start.fizz_count + fizz,
                    buzz_count: start.buzz_count + buzz,
                    fizzbuzz_count: start.fizzbuzz_count + fizzbuzz,
                    value_count: start.value_count + value,
                },
            );
        }
        i = i + 1;
    }
    proof {
        assert(items@.take(items.len() as int) == items@);
        lemma_kinds_partition(items@);
    }
    state.fizz_count = start.fizz_count + fizz;
    state.buzz_count = start.buzz_count + buzz;
    state.fizzbuzz_count = start.fizzbuzz_count + fizzbuzz;
    state.value_count = start.value_count + value;
    state.messages_logged = total;
    logged
}

/// Whether the logger drains its channel now, with `avail` messages waiting:
/// when at least a batch waits, or, once the channel is closed, when any
/// message is left, so that the last messages are counted too.
pub fn should_drain(avail: usize, batch_size: usize, closed: bool) -> (drain: bool)
    ensures
        drain == (avail > 0 && (avail >= batch_size || closed)),
{
    avail > 0 && (avail >= batch_size || closed)
}

impl LoggerState {
    /// The state a fresh logger starts from.
    pub fn new() -> (state: Self)
        ensures
            state == (LoggerState { messages_logged: 0, fizz_count: 0, buzz_count: 0, fizzbuzz_count: 0, value_count: 0 }),
            well_formed(state),
    {
        LoggerState { messages_logged: 0, fizz_count: 0, buzz_count: 0, fizzbuzz_count: 0, value_count: 0 }
    }

    /// Whether tallying `items` keeps every counter within range.
    pub fn can_consume(&self, items: &[FizzBuzzMessage]) -> (ok: bool)
        ensures
            ok == fits(*self, items@),
    {
        let mut fizz: usize = 0;
        let mut buzz: usize = 0;
        let mut fizzbuzz: usize = 0;
        let mut value: usize = 0;
        let mut i: usize = 0;
        while i < items.len()
            invariant
                i <= items.len(),
                fizz == fizz_in(items@.take(i as int)),
                buzz == buzz_in(items@.take(i as int)),
                fizzbuzz == fizzbuzz_in(items@.take(i as int)),
                value == value_in(items@.take(i as int)),
            decreases items.len() - i,
        {
            proof {
                assert(items@.take(i + 1).drop_last() == items@.take(i as int));
                lemma_kinds_partition(items@.take(i + 1));
            }
            match items[i] {
                FizzBuzzMessage::Fizz => fizz = fizz + 1,
                FizzBuzzMessage::Buzz => buzz = buzz + 1,
                FizzBuzzMessage::FizzBuzz => fizzbuzz = fizzbuzz + 1,
                FizzBuzzMessage::Value(_) => value = value + 1,
            }
            i = i + 1;
        }
        proof {
            assert(items@.take(items.len() as int) == items@);
        }
        (items.len() as u64) <= u64::MAX - self.messages_logged
            && (fizz as u64) <= u64::MAX - self.fizz_count
            && (buzz as u64) <= u64::MAX - self.buzz_count
            && (fizzbuzz as u64) <= u64::MAX - self.fizzbuzz_count
            && (value as u64) <= u64::MAX - self.value_count
    }

    /// The line written with this snapshot of the counters.
    pub fn progress_line(&self) -> (line: String)
        ensures
            line@ == progress_text(*self),
    {
        let mut line = String::new();
        line.append("Logger: ");
        push_decimal(&mut line, self.messages_logged);
        line.append(" messages processed (F:");
        push_decimal(&mut line, self.fizz_count);
        line.append(", B:");
        push_decimal(&mut line, self.buzz_count);
        line.append(", FB:");
        push_decimal(&mut line, self.fizzbuzz_count);
        line.append(", V:");
        push_decimal(&mut line, self.value_count);
        line.append(")");
        line
    }

    /// The line written when the logger shuts down with these counters.
    pub fn shutdown_line(&self) -> (line: String)
        ensures
            line@ == shutdown_text(*self),
    {
        let mut line = String::new();
        line.append("Logger shutting down. Total: ");
        push_decimal(&mut line, self.messages_logged);
        line.append(" (F:");
        push_decimal(&mut line, self.fizz_count);
        line.append(", B:");
        push_decimal(&mut line, self.buzz_count);
        line.append(", FB:");
        push_decimal(&mut line, self.fizzbuzz_count);
        line.append(", V:");
        push_decimal(&mut line, self.value_count);
        line.append(")");
        line
    }
}

} // verus!
