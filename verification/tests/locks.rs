use rw_fairness::error::LockError;
use rw_fairness::no_priority_rw_lock::{reader_arrives, reader_leaves, NoPriorityRwLock};
use rw_fairness::protocol::LockEvent;
use rw_fairness::semaphore::{must_wait, return_permit, take_permit};
use rw_fairness::writer_priority_rw_lock::{PriorityState, WriterPriorityRwLock};

#[test]
fn no_priority_readers_overlap() {
    let lock = NoPriorityRwLock::new(5);
    let first = lock.read().unwrap();
    let second = lock.read().unwrap();
    let third = lock.read().unwrap();
    assert_eq!(first.value(), 5);
    assert_eq!(second.value(), 5);
    assert_eq!(third.value(), 5);
    assert_eq!(second.release(), Ok(()));
    assert_eq!(first.release(), Ok(()));
    assert_eq!(third.release(), Ok(()));
    let writer = lock.write().unwrap();
    assert_eq!(writer.value(), 5);
    assert_eq!(writer.release(), Ok(()));
}

#[test]
fn no_priority_writers_count_up() {
    let lock = NoPriorityRwLock::new(0);
    for expected in 1..=20 {
        let mut writer = lock.write().unwrap();
        assert_eq!(writer.increment(), Some(expected));
        assert_eq!(writer.value(), expected);
        writer.release().unwrap();
        let reader = lock.read().unwrap();
        assert_eq!(reader.value(), expected);
        reader.release().unwrap();
    }
    let reader = lock.read().unwrap();
    assert_eq!(reader.value(), 20);
    reader.release().unwrap();
}

#[test]
fn no_priority_write_is_kept_only_by_release() {
    let lock = NoPriorityRwLock::new(5);
    let mut writer = lock.write().unwrap();
    writer.set(-9);
    assert_eq!(writer.value(), -9);
    writer.release().unwrap();
    let reader = lock.read().unwrap();
    assert_eq!(reader.value(), -9);
    reader.release().unwrap();
}

#[test]
fn writer_priority_readers_overlap() {
    let lock = WriterPriorityRwLock::new(5);
    let first = lock.read().unwrap();
    let second = lock.read().unwrap();
    assert_eq!(first.value(), 5);
    assert_eq!(second.value(), 5);
    assert_eq!(first.release(), Ok(()));
    assert_eq!(second.release(), Ok(()));
    let writer = lock.write().unwrap();
    assert_eq!(writer.value(), 5);
    assert_eq!(writer.release(), Ok(()));
    let third = lock.read().unwrap();
    assert_eq!(third.release(), Ok(()));
}

#[test]
fn writer_priority_writers_count_up() {
    let lock = WriterPriorityRwLock::new(0);
    for expected in 1..=20 {
        let mut writer = lock.write().unwrap();
        assert_eq!(writer.increment(), Some(expected));
        writer.release().unwrap();
        let reader = lock.read().unwrap();
        assert_eq!(reader.value(), expected);
        reader.release().unwrap();
    }
}

#[test]
fn increment_stops_at_the_top() {
    let lock = WriterPriorityRwLock::new(i32::MAX - 1);
    let mut writer = lock.write().unwrap();
    assert_eq!(writer.increment(), Some(i32::MAX));
    assert_eq!(writer.increment(), None);
    assert_eq!(writer.value(), i32::MAX);
    writer.release().unwrap();
}

#[test]
fn reader_count_rules() {
    assert_eq!(reader_arrives(0), Some((1, true)));
    assert_eq!(reader_arrives(1), Some((2, false)));
    assert_eq!(reader_arrives(i32::MAX - 1), Some((i32::MAX, false)));
    assert_eq!(reader_arrives(i32::MAX), None);
    assert_eq!(reader_arrives(-1), None);
    assert_eq!(reader_leaves(1), Some((0, true)));
    assert_eq!(reader_leaves(2), Some((1, false)));
    assert_eq!(reader_leaves(0), None);
    assert_eq!(reader_leaves(-4), None);
}

fn counts(state: &PriorityState) -> (u32, bool, u32) {
    (state.active_readers(), state.writer_active(), state.waiting_writers())
}

#[test]
fn priority_state_steps() {
    let idle = PriorityState::new();
    assert_eq!(counts(&idle), (0, false, 0));
    assert!(!idle.reader_must_wait());
    assert!(!idle.writer_must_wait());
    assert!(idle.step(LockEvent::ReaderFinish).is_none());
    assert!(idle.step(LockEvent::WriterStart).is_none());
    assert!(idle.step(LockEvent::WriterFinish).is_none());

    let reading = idle.step(LockEvent::ReaderStart).unwrap();
    assert_eq!(counts(&reading), (1, false, 0));
    assert!(reading.writer_must_wait());
    assert!(!reading.reader_must_wait());

    let announced = reading.step(LockEvent::WriterArrive).unwrap();
    assert_eq!(counts(&announced), (1, false, 1));
    assert!(announced.reader_must_wait());
    assert!(announced.step(LockEvent::ReaderStart).is_none());
    assert!(announced.step(LockEvent::WriterStart).is_none());

    let drained = announced.step(LockEvent::ReaderFinish).unwrap();
    assert_eq!(counts(&drained), (0, false, 1));
    assert!(drained.must_wake(LockEvent::ReaderFinish));
    assert!(!drained.writer_must_wait());

    let writing = drained.step(LockEvent::WriterStart).unwrap();
    assert_eq!(counts(&writing), (0, true, 0));
    assert!(writing.reader_must_wait());
    assert!(writing.writer_must_wait());
    assert!(writing.step(LockEvent::ReaderStart).is_none());

    let done = writing.step(LockEvent::WriterFinish).unwrap();
    assert_eq!(counts(&done), (0, false, 0));
    assert!(done.must_wake(LockEvent::WriterFinish));
}

#[test]
fn last_reader_wakes_the_writers() {
    let two = PriorityState::new()
        .step(LockEvent::ReaderStart)
        .unwrap()
        .step(LockEvent::ReaderStart)
        .unwrap();
    let one = two.step(LockEvent::ReaderFinish).unwrap();
    assert!(!one.must_wake(LockEvent::ReaderFinish));
    let none = one.step(LockEvent::ReaderFinish).unwrap();
    assert!(none.must_wake(LockEvent::ReaderFinish));
    assert!(!none.must_wake(LockEvent::ReaderStart));
    assert!(!none.must_wake(LockEvent::WriterArrive));
    assert!(!none.must_wake(LockEvent::WriterStart));
}

#[test]
fn release_without_entry_is_refused() {
    let state = PriorityState::new();
    assert!(state.step(LockEvent::ReaderFinish).is_none());
    assert!(state.step(LockEvent::WriterFinish).is_none());
    let error = LockError::CounterOutOfRange;
    assert_ne!(error, LockError::Poisoned);
}

#[test]
fn one_permit_goes_round_between_readers_and_writers() {
    // The first reader takes the only permit: a writer has to wait.
    let permits = 1;
    let (readers, first) = reader_arrives(0).unwrap();
    assert!(first);
    assert!(!must_wait(permits));
    let permits = take_permit(permits);
    assert_eq!((readers, permits), (1, 0));
    assert!(must_wait(permits));

    // Further readers need no permit and keep the writer out.
    let (readers, first) = reader_arrives(readers).unwrap();
    assert!(!first);
    let (readers, last) = reader_leaves(readers).unwrap();
    assert!(!last);
    let (readers, first) = reader_arrives(readers).unwrap();
    assert!(!first);
    assert_eq!(readers, 2);
    assert!(must_wait(permits));

    // Only the last reader gives the permit back.
    let (readers, last) = reader_leaves(readers).unwrap();
    assert!(!last);
    let (readers, last) = reader_leaves(readers).unwrap();
    assert!(last);
    let permits = return_permit(permits).unwrap();
    assert_eq!((readers, permits), (0, 1));

    // The writer takes it, and keeps readers and writers out.
    assert!(!must_wait(permits));
    let permits = take_permit(permits);
    assert!(must_wait(permits));
    let (_, first) = reader_arrives(readers).unwrap();
    assert!(first);
    assert_eq!(return_permit(permits), Some(1));
}
