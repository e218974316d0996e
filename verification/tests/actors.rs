use steady_performant::actor::generator::{fill_batch, vacancy_threshold, GeneratorState};
use steady_performant::actor::heartbeat::{HeartbeatState, BURST_SIZE};
use steady_performant::actor::logger::{batch_threshold, consume_items, should_drain, should_log, LoggerState};
use steady_performant::actor::worker::{convert_batch, FizzBuzzMessage, WorkerState, SLICES};
use steady_performant::actor::worker_zero_copy::{transfer, WorkerState as ZeroCopyWorkerState};
use steady_performant::arg::MainArg;

fn messages_for(values: &[u64]) -> Vec<FizzBuzzMessage> {
    values.iter().map(|&v| FizzBuzzMessage::new(v)).collect()
}

#[test]
fn test_generator() {
    // A channel of 1024 messages: the generator waits for half of it and
    // fills whatever room the two writable regions offer.
    let capacity: usize = 1024;
    let room = vacancy_threshold(capacity);
    assert_eq!(room, 512);
    let mut state = GeneratorState::new();
    let batch = fill_batch(state.total_generated, capacity - 100, 100);
    let mut messages: Vec<u64> = batch.first.clone();
    messages.extend_from_slice(&batch.second);
    state.record_sent(messages.len());
    assert!(messages.len() >= 256);
    assert_eq!(messages[0], 0);
    assert_eq!(messages[1], 1);
    assert_eq!(batch.next_value, 1024);
    assert_eq!(state.total_generated, 1024);
}

#[test]
fn test_heartbeat() {
    let arg = MainArg { rate_ms: 10, beats: 100 };
    let mut state = HeartbeatState::new();
    let mut beats: Vec<u64> = Vec::new();
    while !state.is_complete(arg.beats) {
        let burst = state.prepare_burst(arg.beats);
        let sent = burst.len();
        state.record_sent(burst.len(), sent);
        beats.extend_from_slice(&burst);
    }
    assert!(!beats.is_empty());
    assert_eq!(beats[0], 0);
    assert_eq!(beats.len(), 100);
    assert_eq!(state.beats_sent, 100);
}

#[test]
fn test_logger() {
    let test_capacity: usize = 4096;
    let test_size = (test_capacity / 2) as u64;
    let values: Vec<u64> = (0..test_size).collect();
    let messages = messages_for(&values);
    let mut state = LoggerState::new();
    let reports = consume_items(&mut state, &messages);
    let lines: Vec<String> = reports.iter().map(|r| r.progress_line()).collect();
    assert!(lines.contains(&"Logger: 1 messages processed (F:0, B:0, FB:1, V:0)".to_string()));
    assert!(lines.contains(&"Logger: 4 messages processed (F:1, B:0, FB:1, V:2)".to_string()));
    assert!(lines.contains(&"Logger: 15 messages processed (F:4, B:2, FB:1, V:8)".to_string()));
    let p1 = lines.iter().position(|l| l.starts_with("Logger: 1 ")).unwrap();
    let p4 = lines.iter().position(|l| l.starts_with("Logger: 4 ")).unwrap();
    let p15 = lines.iter().position(|l| l.starts_with("Logger: 15 ")).unwrap();
    assert!(p1 < p4 && p4 < p15);
}

#[test]
fn worker_test_worker() {
    let values: Vec<u64> = (0..1000).collect();
    let mut state = WorkerState::new(2048);
    let mut wake = state.wake(true);
    assert!(wake.has_slice());
    assert!(state.begin_slice(&mut wake, true));
    let len = state.batch_len(values.len(), 2048);
    let results = convert_batch(&values[..len]);
    state.record_batch(&mut wake, len, results.len());
    let mut all = results.clone();
    let rest = convert_batch(&values[len..]);
    all.extend_from_slice(&rest);
    assert!(all.len() >= 1000);
    assert_eq!(all[0], FizzBuzzMessage::FizzBuzz);
    assert_eq!(all[1], FizzBuzzMessage::Value(1));
}

#[test]
fn worker_zero_copy_test_worker() {
    let values: Vec<u64> = (0..1000).collect();
    let mut state = ZeroCopyWorkerState::new();
    assert!(state.begin_round(true, true));
    let t = transfer(&values, &[], 2048, 0);
    state.record_transfer(&t);
    let mut results = t.first.clone();
    results.extend_from_slice(&t.second);
    assert!(results.len() >= 1000);
    assert_eq!(results[0], FizzBuzzMessage::FizzBuzz);
    assert_eq!(results[1], FizzBuzzMessage::Value(1));
    assert_eq!(state.values_processed, 1000);
    assert_eq!(state.messages_sent, 1000);
}

#[test]
fn fifteen_is_fizzbuzz_and_default_args() {
    // The generator echoes 15 and the logger waits for a FizzBuzz message.
    assert_eq!(FizzBuzzMessage::new(15), FizzBuzzMessage::FizzBuzz);
    let arg = MainArg::default();
    assert_eq!(arg.rate_ms, 100);
    assert_eq!(arg.beats, 600);
    assert_eq!(arg.clone(), MainArg { rate_ms: 100, beats: 600 });
}

#[test]
fn fizzbuzz_classification_by_residue() {
    assert_eq!(FizzBuzzMessage::new(0), FizzBuzzMessage::FizzBuzz);
    assert_eq!(FizzBuzzMessage::new(3), FizzBuzzMessage::Fizz);
    assert_eq!(FizzBuzzMessage::new(5), FizzBuzzMessage::Buzz);
    assert_eq!(FizzBuzzMessage::new(6), FizzBuzzMessage::Fizz);
    assert_eq!(FizzBuzzMessage::new(9), FizzBuzzMessage::Fizz);
    assert_eq!(FizzBuzzMessage::new(10), FizzBuzzMessage::Buzz);
    assert_eq!(FizzBuzzMessage::new(12), FizzBuzzMessage::Fizz);
    assert_eq!(FizzBuzzMessage::new(30), FizzBuzzMessage::FizzBuzz);
    assert_eq!(FizzBuzzMessage::new(7), FizzBuzzMessage::Value(7));
    assert_eq!(FizzBuzzMessage::new(u64::MAX), FizzBuzzMessage::FizzBuzz);
    assert_eq!(FizzBuzzMessage::new(u64::MAX - 1), FizzBuzzMessage::Value(u64::MAX - 1));
    assert_eq!(FizzBuzzMessage::default(), FizzBuzzMessage::FizzBuzz);
}

#[test]
fn proportions_over_fifteen_blocks() {
    let values: Vec<u64> = (0..15 * 7).collect();
    let mut state = LoggerState::new();
    consume_items(&mut state, &convert_batch(&values));
    assert_eq!(state.fizz_count, 4 * 7);
    assert_eq!(state.buzz_count, 2 * 7);
    assert_eq!(state.fizzbuzz_count, 7);
    assert_eq!(state.value_count, 8 * 7);
    assert_eq!(state.messages_logged, 105);
    assert_eq!(state.shutdown_line(), "Logger shutting down. Total: 105 (F:28, B:14, FB:7, V:56)");
}

#[test]
fn logger_split_matches_whole() {
    let values: Vec<u64> = (0..40).collect();
    let messages = convert_batch(&values);
    let mut whole = LoggerState::new();
    let whole_reports = consume_items(&mut whole, &messages);
    let mut split = LoggerState::new();
    let mut split_reports = consume_items(&mut split, &messages[..11]);
    split_reports.extend(consume_items(&mut split, &messages[11..]));
    assert_eq!(whole, split);
    assert_eq!(whole_reports, split_reports);
    assert_eq!(whole_reports.len(), 15);
}

#[test]
fn log_points() {
    assert!(should_log(1));
    assert!(should_log(15));
    assert!(!should_log(16));
    assert!(!should_log(17));
    assert!(should_log(1 << 24));
    assert!(!should_log((1 << 24) + 1));
    assert!(should_log(3 << 24));
    assert!(should_log(1 << 27));
    assert!(should_log(9613344768));
    assert!(should_log(0));
}

#[test]
fn logger_reports_at_large_log_point() {
    let mut state = LoggerState {
        messages_logged: 9613344767,
        fizz_count: 2563558604,
        buzz_count: 1281779302,
        fizzbuzz_count: 640889652,
        value_count: 5127117209,
    };
    let reports = consume_items(&mut state, &[FizzBuzzMessage::Value(9613344767), FizzBuzzMessage::Fizz]);
    assert_eq!(reports.len(), 1);
    assert_eq!(
        reports[0].progress_line(),
        "Logger: 9613344768 messages processed (F:2563558604, B:1281779302, FB:640889652, V:5127117210)"
    );
    assert_eq!(state.messages_logged, 9613344769);
    assert_eq!(state.fizz_count, 2563558605);
}

#[test]
fn logger_thresholds() {
    assert_eq!(batch_threshold(4096), 2048);
    assert_eq!(batch_threshold(1 << 21), 1 << 20);
    assert_eq!(batch_threshold(7), 3);
}

#[test]
fn heartbeat_partial_send_resends() {
    let mut state = HeartbeatState::new();
    assert_eq!(state.burst_size, BURST_SIZE);
    let burst = state.prepare_burst(40);
    assert_eq!(burst, (0..32).collect::<Vec<u64>>());
    state.record_sent(burst.len(), 20);
    assert_eq!(state.count, 20);
    assert_eq!(state.beats_sent, 20);
    let burst = state.prepare_burst(40);
    assert_eq!(burst, (20..40).collect::<Vec<u64>>());
    state.record_sent(burst.len(), 20);
    assert!(state.is_complete(40));
    assert_eq!(state.beats_sent, 40);
}

#[test]
fn heartbeat_last_burst_is_short() {
    let mut state = HeartbeatState::new();
    let burst = state.prepare_burst(5);
    assert_eq!(burst, vec![0, 1, 2, 3, 4]);
    assert!(state.is_complete(5));
    state.record_sent(5, 0);
    assert_eq!(state.count, 0);
    assert!(!state.is_complete(5));
    let burst = state.prepare_burst(0);
    assert!(burst.is_empty());
}

#[test]
fn worker_batch_limits() {
    let mut state = WorkerState::new(1 << 20);
    assert_eq!(state.batch_size, (1 << 20) / SLICES);
    assert_eq!(state.batch_len(10, 20), 10);
    assert_eq!(state.batch_len(30, 20), 20);
    assert_eq!(state.batch_len(usize::MAX, usize::MAX), 1 << 19);
    // A clean wait with no heartbeat stops the wake-up at once.
    let mut wake = state.wake(true);
    assert!(!state.begin_slice(&mut wake, false));
    assert!(!wake.has_slice());
    assert_eq!(state.heartbeats_processed, 0);
    // A wait that did not complete runs both slices, and no more.
    let mut wake = state.wake(false);
    assert!(state.begin_slice(&mut wake, false));
    state.record_batch(&mut wake, 7, 7);
    assert!(wake.has_slice());
    assert!(state.begin_slice(&mut wake, true));
    state.record_batch(&mut wake, 1 << 19, 1 << 19);
    assert!(!wake.has_slice());
    assert_eq!(wake.values_taken(), 7 + (1 << 19));
    assert_eq!(wake.batch_limit(), 1 << 19);
    assert_eq!(state.heartbeats_processed, 2);
    assert_eq!(state.values_processed, 7 + (1 << 19));
    assert_eq!(state.messages_sent, 7 + (1 << 19));
    assert_eq!(state.values_processed, state.messages_sent);
}

#[test]
fn convert_keeps_order() {
    assert_eq!(
        convert_batch(&[9, 10, 11, 45]),
        vec![
            FizzBuzzMessage::Fizz,
            FizzBuzzMessage::Buzz,
            FizzBuzzMessage::Value(11),
            FizzBuzzMessage::FizzBuzz
        ]
    );
    assert!(convert_batch(&[]).is_empty());
}

#[test]
fn zero_copy_across_wrapped_regions() {
    // Both rings wrapped: reads of 3 then 2 values, room for 2 then 6.
    let t = transfer(&[3, 4, 5], &[6, 7], 2, 6);
    assert_eq!(t.take_count, 5);
    assert_eq!(t.first, vec![FizzBuzzMessage::Fizz, FizzBuzzMessage::Value(4)]);
    assert_eq!(t.second, vec![FizzBuzzMessage::Buzz, FizzBuzzMessage::Fizz, FizzBuzzMessage::Value(7)]);
    let mut state = ZeroCopyWorkerState::new();
    state.record_transfer(&t);
    assert_eq!(state.values_processed, 5);
    assert_eq!(state.messages_sent, 5);
    assert!(!state.begin_round(false, true));
    let t = transfer(&[1], &[2, 3, 4, 5, 6, 7], 3, 10);
    assert_eq!(t.first, messages_for(&[1, 2, 3]));
    assert_eq!(t.second, messages_for(&[4, 5, 6, 7]));
    let t = transfer(&[1, 2, 3], &[4, 5, 6, 7], 5, 10);
    assert_eq!(t.first, messages_for(&[1, 2, 3, 4, 5]));
    assert_eq!(t.second, messages_for(&[6, 7]));
}

#[test]
fn zero_copy_write_room_limits() {
    // Less room than values: only what fits is taken.
    let t = transfer(&[3, 5], &[15, 16], 1, 2);
    assert_eq!(t.take_count, 3);
    assert_eq!(t.first, messages_for(&[3]));
    assert_eq!(t.second, messages_for(&[5, 15]));
    let t = transfer(&[0, 1, 2, 3], &[], 2, 2);
    assert_eq!(t.first, messages_for(&[0, 1]));
    assert_eq!(t.second, messages_for(&[2, 3]));
    assert_eq!(t.take_count, 4);
    let t = transfer(&[], &[], 4, 4);
    assert_eq!(t.take_count, 0);
    assert!(t.first.is_empty() && t.second.is_empty());
}

#[test]
fn generator_batches_continue() {
    let first = fill_batch(0, 3, 2);
    assert_eq!(first.first, vec![0, 1, 2]);
    assert_eq!(first.second, vec![3, 4]);
    let second = fill_batch(first.next_value, 0, 4);
    assert!(second.first.is_empty());
    assert_eq!(second.second, vec![5, 6, 7, 8]);
    assert_eq!(second.next_value, 9);
    let last = fill_batch(u64::MAX - 1, 1, 0);
    assert_eq!(last.first, vec![u64::MAX - 1]);
    assert_eq!(last.next_value, u64::MAX);
}


#[test]
fn logger_counter_room() {
    let state = LoggerState::new();
    assert!(state.can_consume(&[FizzBuzzMessage::Fizz]));
    // Counters that do not add up are still tallied as they are.
    let mut odd = LoggerState { messages_logged: 0, fizz_count: 5, buzz_count: 0, fizzbuzz_count: 0, value_count: 0 };
    assert!(odd.can_consume(&[FizzBuzzMessage::Fizz, FizzBuzzMessage::Buzz]));
    let reports = consume_items(&mut odd, &[FizzBuzzMessage::Fizz, FizzBuzzMessage::Buzz]);
    assert_eq!(reports[1].progress_line(), "Logger: 2 messages processed (F:6, B:1, FB:0, V:0)");
    assert_eq!(odd.fizz_count, 6);
    let full = LoggerState { messages_logged: 10, fizz_count: u64::MAX, buzz_count: 0, fizzbuzz_count: 0, value_count: 0 };
    assert!(!full.can_consume(&[FizzBuzzMessage::Fizz]));
    assert!(full.can_consume(&[FizzBuzzMessage::Buzz]));
    let last = LoggerState { messages_logged: u64::MAX, fizz_count: 0, buzz_count: 0, fizzbuzz_count: 0, value_count: 0 };
    assert!(!last.can_consume(&[FizzBuzzMessage::Value(2)]));
    assert!(last.can_consume(&[]));
}

#[test]
fn logger_drains_tail_at_close() {
    assert!(should_drain(2048, 2048, false));
    assert!(!should_drain(2047, 2048, false));
    assert!(should_drain(5, 2048, true));
    assert!(!should_drain(0, 2048, true));
    assert!(!should_drain(0, 0, false));
}
