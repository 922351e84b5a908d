use emitter::buffer::{Buffer, BufferEvent};
use emitter::log_entry::{LogEntry, LogLevel};
use emitter::sink::{batch_ids, dispatch_batch, MemorySink, Sink, StdoutSink};

fn entry(id: &str, service: &str, level: LogLevel, message: &str) -> LogEntry {
    LogEntry {
        id: id.to_string(),
        timestamp_ms: 1_700_000_000_000,
        service: service.to_string(),
        level,
        message: message.to_string(),
        embedding: vec![],
    }
}

fn numbered(n: usize) -> LogEntry {
    entry(&format!("id-{n}"), "svc", LogLevel::Info, &format!("message {n}"))
}

#[test]
fn capacity_flush_has_exactly_capacity_events() {
    let mut buffer = Buffer::new(3, 1000);
    assert_eq!(buffer.capacity(), 3);
    assert_eq!(buffer.flush_interval_ms(), 1000);
    let out1 = buffer.step(BufferEvent::Received(numbered(0)));
    let out2 = buffer.step(BufferEvent::Received(numbered(1)));
    assert!(out1.flushed.is_none() && !out1.done);
    assert!(out2.flushed.is_none() && !out2.done);
    assert_eq!(buffer.len(), 2);
    let out3 = buffer.step(BufferEvent::Received(numbered(2)));
    let batch = out3.flushed.expect("third event fills the batch");
    assert_eq!(batch.len(), 3);
    assert!(!out3.done);
    assert_eq!(buffer.len(), 0);
}

#[test]
fn end_to_end_scenario_five_events_capacity_three() {
    // capacity 3, five events, then the channel closes: one capacity flush of
    // exactly three events in send order, one drain flush of the remaining
    // two, and nothing further.
    let mut buffer = Buffer::new(3, 1000);
    let mut events: Vec<BufferEvent> = (0..5).map(|n| BufferEvent::Received(numbered(n))).collect();
    events.push(BufferEvent::Closed);
    let flushes = buffer.run(events);
    assert_eq!(flushes.len(), 2);
    assert_eq!(flushes[0].len(), 3);
    assert_eq!(flushes[1].len(), 2);
    let order: Vec<String> = flushes.iter().flatten().map(|e| e.id.clone()).collect();
    assert_eq!(order, vec!["id-0", "id-1", "id-2", "id-3", "id-4"]);
    assert_eq!(buffer.len(), 0);
}

#[test]
fn timer_never_flushes_an_empty_batch() {
    // capacity far out of reach: repeated timer expiries with nothing pending
    // cause no flush at all; once a single event is pending, the next expiry
    // flushes exactly that event.
    let mut buffer = Buffer::new(1000, 100);
    let quiet1 = buffer.step(BufferEvent::TimerExpired);
    let quiet2 = buffer.step(BufferEvent::TimerExpired);
    assert!(quiet1.flushed.is_none() && !quiet1.done);
    assert!(quiet2.flushed.is_none() && !quiet2.done);
    let accepted = buffer.step(BufferEvent::Received(numbered(7)));
    assert!(accepted.flushed.is_none());
    let fired = buffer.step(BufferEvent::TimerExpired);
    let batch = fired.flushed.expect("pending event flushes on expiry");
    assert_eq!(batch.len(), 1);
    assert_eq!(batch[0].id, "id-7");
    let quiet3 = buffer.step(BufferEvent::TimerExpired);
    assert!(quiet3.flushed.is_none());
}

#[test]
fn close_with_nothing_pending_flushes_nothing() {
    let mut buffer = Buffer::new(4, 50);
    let out = buffer.step(BufferEvent::Closed);
    assert!(out.flushed.is_none());
    assert!(out.done);
}

#[test]
fn run_stops_at_the_close_and_ignores_later_events() {
    let mut buffer = Buffer::new(10, 50);
    let events = vec![
        BufferEvent::Received(numbered(1)),
        BufferEvent::Closed,
        BufferEvent::Received(numbered(2)),
    ];
    let flushes = buffer.run(events);
    assert_eq!(flushes.len(), 1);
    assert_eq!(flushes[0].len(), 1);
    assert_eq!(flushes[0][0].id, "id-1");
}

#[test]
fn no_loss_no_duplication_with_mixed_timers() {
    // the flushed batches laid end to end are exactly the received events.
    let mut buffer = Buffer::new(2, 100);
    let events = vec![
        BufferEvent::TimerExpired,
        BufferEvent::Received(numbered(0)),
        BufferEvent::TimerExpired,
        BufferEvent::Received(numbered(1)),
        BufferEvent::Received(numbered(2)),
        BufferEvent::Received(numbered(3)),
        BufferEvent::Closed,
    ];
    let flushes = buffer.run(events);
    let total: usize = flushes.iter().map(|b| b.len()).sum();
    assert_eq!(total, 4);
    let order: Vec<String> = flushes.iter().flatten().map(|e| e.id.clone()).collect();
    assert_eq!(order, vec!["id-0", "id-1", "id-2", "id-3"]);
    for batch in &flushes {
        assert!(!batch.is_empty());
    }
}

#[test]
fn failing_sink_never_blocks_the_succeeding_sink() {
    // two sinks, one always failing and one always succeeding: every flushed
    // batch still reaches the succeeding sink intact.
    let mut sinks = vec![MemorySink::new(false), MemorySink::new(true)];
    let batch1 = vec![numbered(1), numbered(2)];
    let batch2 = vec![numbered(3)];
    let results1 = dispatch_batch(&mut sinks, &batch1);
    let results2 = dispatch_batch(&mut sinks, &batch2);
    assert_eq!(results1, vec![false, true]);
    assert_eq!(results2, vec![false, true]);
    assert_eq!(sinks[0].batches().len(), 0);
    let good = sinks[1].batches();
    assert_eq!(good.len(), 2);
    assert_eq!(good[0].len(), 2);
    assert_eq!(good[0][0].id, "id-1");
    assert_eq!(good[0][1].id, "id-2");
    assert_eq!(good[0][1].message, "message 2");
    assert_eq!(good[1].len(), 1);
    assert_eq!(good[1][0].id, "id-3");
}

#[test]
fn run_with_sinks_delivers_every_flush_to_the_accepting_sink() {
    // the full consumer behavior in one call: capacity flush, drain flush,
    // and fan-out with one sink refusing every write.
    let mut buffer = Buffer::new(3, 1000);
    let mut events: Vec<BufferEvent> = (0..5).map(|n| BufferEvent::Received(numbered(n))).collect();
    events.push(BufferEvent::Closed);
    let mut sinks = vec![MemorySink::new(false), MemorySink::new(true)];
    let (flushes, oks) = buffer.run_with_sinks(events, &mut sinks);
    assert_eq!(flushes.len(), 2);
    assert_eq!(oks, vec![vec![false, true], vec![false, true]]);
    assert_eq!(sinks[0].batches().len(), 0);
    let good = sinks[1].batches();
    assert_eq!(good.len(), 2);
    assert_eq!(good[0].len(), 3);
    assert_eq!(good[1].len(), 2);
    let order: Vec<String> = good.iter().flatten().map(|e| e.id.clone()).collect();
    assert_eq!(order, vec!["id-0", "id-1", "id-2", "id-3", "id-4"]);
}

#[test]
fn memory_sink_write_reports_its_outcome() {
    let mut accepting = MemorySink::new(true);
    let mut refusing = MemorySink::new(false);
    let batch = vec![numbered(4)];
    assert!(accepting.write(&batch).is_ok());
    assert!(refusing.write(&batch).is_err());
    assert_eq!(accepting.batches().len(), 1);
    assert_eq!(refusing.batches().len(), 0);
}

#[test]
fn stdout_sink_accepts_every_batch() {
    let mut sink = StdoutSink::new();
    let batch = vec![entry("id-a", "gateway", LogLevel::Warn, "spilled")];
    assert!(sink.write(&batch).is_ok());
}

#[test]
fn batch_extractors_keep_batch_order() {
    let batch = vec![
        entry("a", "svc-1", LogLevel::Debug, "first"),
        entry("b", "svc-2", LogLevel::Error, "second"),
    ];
    assert_eq!(batch_ids(&batch), vec!["a", "b"]);
    assert_eq!(emitter::sink::batch_services(&batch), vec!["svc-1", "svc-2"]);
    assert_eq!(emitter::sink::batch_messages(&batch), vec!["first", "second"]);
    assert_eq!(emitter::sink::batch_level_labels(&batch), vec!["DEBUG", "ERROR"]);
    assert_eq!(
        emitter::sink::batch_timestamps(&batch),
        vec![1_700_000_000_000, 1_700_000_000_000]
    );
    assert_eq!(emitter::sink::batch_embeddings(&batch), vec![Vec::<u32>::new(), Vec::new()]);
}

#[test]
fn console_line_formats_level_service_and_message() {
    let e = entry("x", "auth-service", LogLevel::Error, "rotated credentials");
    assert_eq!(
        emitter::sink::console_line(&e),
        "ERROR auth-service: rotated credentials"
    );
}
