use rw_fairness::dispatch::{schedule, DispatchStep};
use rw_fairness::protocol::LockEvent;
use rw_fairness::workload::{RWEntry, RWTime, ReaderWriterSequence};
use rw_fairness::writer_priority_rw_lock::PriorityState;

fn fixed_workload() -> ReaderWriterSequence {
    ReaderWriterSequence::new(vec![
        RWEntry { rw_time: RWTime::WriteTime(10), enter_gap: 0 },
        RWEntry { rw_time: RWTime::ReadTime(10), enter_gap: 0 },
        RWEntry { rw_time: RWTime::WriteTime(10), enter_gap: 0 },
    ])
}

#[test]
fn write_read_write_launches_in_order_without_pause() {
    assert_eq!(
        schedule(&fixed_workload()),
        vec![
            DispatchStep::Pause(0),
            DispatchStep::Launch { index: 0, work: RWTime::WriteTime(10) },
            DispatchStep::Pause(0),
            DispatchStep::Launch { index: 1, work: RWTime::ReadTime(10) },
            DispatchStep::Pause(0),
            DispatchStep::Launch { index: 2, work: RWTime::WriteTime(10) },
        ]
    );
}

#[test]
fn write_read_write_under_writer_priority() {
    let idle = PriorityState::new();

    // The first writer arrives at an idle lock and enters at once.
    let first_waits = idle.step(LockEvent::WriterArrive).unwrap();
    assert!(!first_waits.writer_must_wait());
    let first_writes = first_waits.step(LockEvent::WriterStart).unwrap();
    assert!(first_writes.writer_active());

    // The reader comes while the first writer is inside: it is kept out.
    assert!(first_writes.reader_must_wait());
    assert!(first_writes.step(LockEvent::ReaderStart).is_none());

    // The second writer comes while the first is inside: it waits, and
    // cannot finish before the first has.
    let second_waits = first_writes.step(LockEvent::WriterArrive).unwrap();
    assert_eq!(second_waits.waiting_writers(), 1);
    assert!(second_waits.writer_must_wait());
    assert!(second_waits.step(LockEvent::WriterStart).is_none());

    // The first writer leaves and wakes everybody. The reader is still kept
    // out, because a writer waits; the writer may enter.
    let first_done = second_waits.step(LockEvent::WriterFinish).unwrap();
    assert!(first_done.must_wake(LockEvent::WriterFinish));
    assert!(first_done.reader_must_wait());
    assert!(first_done.step(LockEvent::ReaderStart).is_none());
    assert!(!first_done.writer_must_wait());
    let second_writes = first_done.step(LockEvent::WriterStart).unwrap();
    assert!(second_writes.writer_active());
    assert_eq!(second_writes.waiting_writers(), 0);
    assert!(second_writes.reader_must_wait());

    // Only when the second writer has left does the reader enter.
    let second_done = second_writes.step(LockEvent::WriterFinish).unwrap();
    assert!(!second_done.reader_must_wait());
    let reading = second_done.step(LockEvent::ReaderStart).unwrap();
    assert_eq!(reading.active_readers(), 1);
    assert!(!reading.writer_active());
    let idle_again = reading.step(LockEvent::ReaderFinish).unwrap();
    assert!(idle_again.must_wake(LockEvent::ReaderFinish));
    assert_eq!(idle_again.active_readers(), 0);
}

#[test]
fn reader_that_came_first_finishes_before_the_writer_starts() {
    let reading = PriorityState::new().step(LockEvent::ReaderStart).unwrap();
    let writer_waits = reading.step(LockEvent::WriterArrive).unwrap();
    assert!(writer_waits.writer_must_wait());
    assert!(writer_waits.step(LockEvent::WriterStart).is_none());
    assert!(writer_waits.reader_must_wait());
    let drained = writer_waits.step(LockEvent::ReaderFinish).unwrap();
    assert!(!drained.writer_must_wait());
    assert!(drained.step(LockEvent::WriterStart).is_some());
}
