use rw_fairness::dispatch::{
    fairness_ratio, last_writer_done, record, schedule, Completion, DispatchStep, FairnessRatio,
};
use rw_fairness::policy::{LockPolicy, PolicyLock};
use rw_fairness::workload::{RWEntry, RWTime, ReaderWriterSequence, Role};

fn done(role: Role, elapsed: u64) -> Completion {
    Completion { role, elapsed }
}

#[test]
fn schedule_pauses_before_each_launch() {
    let sequence = ReaderWriterSequence::new(vec![
        RWEntry { rw_time: RWTime::WriteTime(10), enter_gap: 6 },
        RWEntry { rw_time: RWTime::ReadTime(24), enter_gap: 0 },
        RWEntry { rw_time: RWTime::WriteTime(17), enter_gap: 12 },
    ]);
    assert_eq!(
        schedule(&sequence),
        vec![
            DispatchStep::Pause(6),
            DispatchStep::Launch { index: 0, work: RWTime::WriteTime(10) },
            DispatchStep::Pause(0),
            DispatchStep::Launch { index: 1, work: RWTime::ReadTime(24) },
            DispatchStep::Pause(12),
            DispatchStep::Launch { index: 2, work: RWTime::WriteTime(17) },
        ]
    );
}

#[test]
fn schedule_of_nothing_is_empty() {
    let sequence = ReaderWriterSequence::new(Vec::new());
    assert_eq!(schedule(&sequence), Vec::new());
}

#[test]
fn record_keeps_the_later_writer() {
    assert_eq!(record(0, done(Role::Write, 30)), 30);
    assert_eq!(record(30, done(Role::Write, 20)), 30);
    assert_eq!(record(30, done(Role::Write, 30)), 30);
    assert_eq!(record(30, done(Role::Write, 31)), 31);
    assert_eq!(record(30, done(Role::Read, 99)), 30);
    assert_eq!(record(0, done(Role::Read, 99)), 0);
}

#[test]
fn last_writer_done_is_the_latest_writer() {
    let records = vec![
        done(Role::Read, 500),
        done(Role::Write, 120),
        done(Role::Write, 340),
        done(Role::Read, 900),
        done(Role::Write, 200),
    ];
    assert_eq!(last_writer_done(&records), 340);
    let mut reversed = records.clone();
    reversed.reverse();
    assert_eq!(last_writer_done(&reversed), 340);
    assert_eq!(last_writer_done(&Vec::new()), 0);
}

#[test]
fn ratio_of_a_run_without_writers_is_zero() {
    let records = vec![done(Role::Read, 10), done(Role::Read, 25), done(Role::Read, 7)];
    let ratio = fairness_ratio(&records, 30).unwrap();
    assert_eq!(ratio.last_writer(), 0);
    assert_eq!(ratio.total(), 30);
    assert_eq!(ratio.parts_per_million(), 0);
}

#[test]
fn ratio_is_last_writer_over_total() {
    let records = vec![done(Role::Write, 250), done(Role::Read, 990), done(Role::Write, 750)];
    let ratio = fairness_ratio(&records, 1000).unwrap();
    assert_eq!(ratio.last_writer(), 750);
    assert_eq!(ratio.total(), 1000);
    assert_eq!(ratio.parts_per_million(), 750_000);
    let quotient = ratio.last_writer() as f64 / ratio.total() as f64;
    assert_eq!(quotient, 0.75);
    assert!((0.0..=1.0).contains(&quotient));
}

#[test]
fn ratio_rounds_down_to_millionths() {
    let third = FairnessRatio::new(1, 3).unwrap();
    assert_eq!(third.parts_per_million(), 333_333);
    let two_thirds = FairnessRatio::new(2, 3).unwrap();
    assert_eq!(two_thirds.parts_per_million(), 666_666);
    let whole = FairnessRatio::new(u64::MAX, u64::MAX).unwrap();
    assert_eq!(whole.parts_per_million(), 1_000_000);
    let nearly = FairnessRatio::new(u64::MAX - 1, u64::MAX).unwrap();
    assert_eq!(nearly.parts_per_million(), 999_999);
    let empty = FairnessRatio::new(0, 0).unwrap();
    assert_eq!(empty.parts_per_million(), 0);
}

#[test]
fn a_writer_after_the_end_gives_no_ratio() {
    assert!(FairnessRatio::new(11, 10).is_none());
    let records = vec![done(Role::Write, 1001)];
    assert!(fairness_ratio(&records, 1000).is_none());
    assert!(fairness_ratio(&records, 1001).is_some());
    let readers = vec![done(Role::Read, 1001)];
    assert!(fairness_ratio(&readers, 1000).is_some());
}

#[test]
fn policy_lock_follows_its_policy() {
    for policy in [LockPolicy::NoPriority, LockPolicy::WriterPriority] {
        let lock = PolicyLock::new(policy, 5);
        assert_eq!(lock.policy(), policy);
        let mut writer = lock.write().unwrap();
        assert_eq!(writer.value(), 5);
        assert_eq!(writer.increment(), Some(6));
        writer.release().unwrap();
        let first = lock.read().unwrap();
        let second = lock.read().unwrap();
        assert_eq!(first.value(), 6);
        assert_eq!(second.value(), 6);
        first.release().unwrap();
        second.release().unwrap();
    }
}

#[test]
fn counter_equals_the_number_of_writers() {
    for policy in [LockPolicy::NoPriority, LockPolicy::WriterPriority] {
        let lock = PolicyLock::new(policy, 0);
        let writers = 37;
        for turn in 0..100 {
            if turn < writers {
                let mut writer = lock.write().unwrap();
                writer.increment().unwrap();
                writer.release().unwrap();
            }
            let reader = lock.read().unwrap();
            let other = lock.read().unwrap();
            assert_eq!(reader.value(), other.value());
            other.release().unwrap();
            reader.release().unwrap();
        }
        let reader = lock.read().unwrap();
        assert_eq!(reader.value(), writers);
        reader.release().unwrap();
    }
}
