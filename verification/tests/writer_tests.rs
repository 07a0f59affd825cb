use kaipanla::models::KLine;
use kaipanla::writer::{BatchWriter, SinkAction, SinkEvent};

fn record(i: i64) -> KLine {
    KLine {
        datetime: i,
        code: "000001".to_string(),
        open: 10_000,
        high: 10_500,
        low: 9_800,
        close: 10_200,
        volume: i,
        amount: 0,
    }
}

fn times(batch: &[KLine]) -> Vec<i64> {
    batch.iter().map(|k| k.datetime).collect()
}

#[test]
fn test_batch_writer_creation() {
    let writer = BatchWriter::new();
    assert_eq!(writer.batch_size(), 100);
    assert_eq!(writer.batch_timeout_secs(), 5);
}

#[test]
fn exactly_batch_size_records_flush_once() {
    let mut writer = BatchWriter::new();
    let mut flushes = vec![];
    for i in 0..100 {
        match writer.handle(SinkEvent::Record(record(i))) {
            SinkAction::Wait => {}
            SinkAction::Flush(batch) => flushes.push(times(&batch)),
            _ => panic!("unexpected stop"),
        }
    }
    assert_eq!(flushes.len(), 1);
    assert_eq!(flushes[0], (0..100).collect::<Vec<i64>>());
    assert_eq!(writer.pending(), 0);
    assert!(matches!(writer.handle(SinkEvent::Timeout), SinkAction::Wait));
    assert!(matches!(writer.handle(SinkEvent::Closed), SinkAction::Stop));
}

#[test]
fn timeout_flushes_a_partial_batch_once() {
    let mut writer = BatchWriter::with_limits(10, 2);
    assert_eq!(writer.batch_timeout_secs(), 2);
    for i in 0..3 {
        assert!(matches!(writer.handle(SinkEvent::Record(record(i))), SinkAction::Wait));
    }
    assert_eq!(writer.pending(), 3);
    match writer.handle(SinkEvent::Timeout) {
        SinkAction::Flush(batch) => assert_eq!(times(&batch), vec![0, 1, 2]),
        _ => panic!("expected a flush"),
    }
    assert_eq!(writer.pending(), 0);
    assert!(matches!(writer.handle(SinkEvent::Timeout), SinkAction::Wait));
}

#[test]
fn close_flushes_the_remainder_and_stops() {
    let mut writer = BatchWriter::with_limits(2, 5);
    let mut flushes = vec![];
    for i in 0..5 {
        if let SinkAction::Flush(batch) = writer.handle(SinkEvent::Record(record(i))) {
            flushes.push(times(&batch));
        }
    }
    assert_eq!(flushes, vec![vec![0, 1], vec![2, 3]]);
    match writer.handle(SinkEvent::Closed) {
        SinkAction::FlushAndStop(batch) => assert_eq!(times(&batch), vec![4]),
        _ => panic!("expected a last flush"),
    }
    assert_eq!(writer.pending(), 0);
}

#[test]
fn close_over_an_empty_batch_just_stops() {
    let mut writer = BatchWriter::new();
    assert!(matches!(writer.handle(SinkEvent::Closed), SinkAction::Stop));
}

#[test]
fn threshold_of_zero_or_one_flushes_every_record() {
    for size in [0usize, 1] {
        let mut writer = BatchWriter::with_limits(size, 5);
        for i in 0..3 {
            match writer.handle(SinkEvent::Record(record(i))) {
                SinkAction::Flush(batch) => assert_eq!(times(&batch), vec![i]),
                _ => panic!("expected a flush"),
            }
        }
    }
}

#[test]
fn start_runs_a_whole_stream() {
    let mut writer = BatchWriter::with_limits(2, 5);
    let events = vec![
        SinkEvent::Record(record(0)),
        SinkEvent::Record(record(1)),
        SinkEvent::Timeout,
        SinkEvent::Record(record(2)),
        SinkEvent::Timeout,
        SinkEvent::Record(record(3)),
        SinkEvent::Closed,
        SinkEvent::Record(record(4)),
    ];
    let (batches, consumed) = writer.start(&events);
    let written: Vec<Vec<i64>> = batches.iter().map(|b| times(b)).collect();
    assert_eq!(written, vec![vec![0, 1], vec![2], vec![3]]);
    assert_eq!(consumed, 7);
    assert_eq!(writer.pending(), 0);
}

#[test]
fn start_with_exactly_batch_size_records_flushes_once() {
    let mut writer = BatchWriter::new();
    let events: Vec<SinkEvent> = (0..100).map(|i| SinkEvent::Record(record(i))).collect();
    let (batches, consumed) = writer.start(&events);
    assert_eq!(consumed, 100);
    assert_eq!(batches.len(), 1);
    assert_eq!(times(&batches[0]), (0..100).collect::<Vec<i64>>());
    assert_eq!(writer.pending(), 0);
}

#[test]
fn start_without_a_close_keeps_the_partial_batch() {
    let mut writer = BatchWriter::with_limits(3, 5);
    let events = vec![SinkEvent::Record(record(0)), SinkEvent::Record(record(1))];
    let (batches, consumed) = writer.start(&events);
    assert!(batches.is_empty());
    assert_eq!(consumed, 2);
    assert_eq!(writer.pending(), 2);
    let (batches, consumed) = writer.start(&vec![SinkEvent::Closed]);
    assert_eq!(consumed, 1);
    assert_eq!(batches.len(), 1);
    assert_eq!(times(&batches[0]), vec![0, 1]);
}

#[test]
fn failed_write_stops_the_sink() {
    let mut writer = BatchWriter::with_limits(2, 5);
    assert!(matches!(writer.handle(SinkEvent::Record(record(0))), SinkAction::Wait));
    assert!(matches!(writer.handle(SinkEvent::Record(record(1))), SinkAction::Flush(_)));
    assert!(matches!(writer.on_write_result(true), SinkAction::Wait));
    assert!(matches!(writer.handle(SinkEvent::Record(record(2))), SinkAction::Wait));
    assert!(matches!(writer.on_write_result(false), SinkAction::Stop));
    // nothing is retried and nothing is taken back
    assert_eq!(writer.pending(), 1);
}
