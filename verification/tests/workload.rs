use rand::rngs::StdRng;
use rand::{Rng, SeedableRng};
use rw_fairness::workload::{
    entry_from_draws, ConfigurationError, RWEntry, RWTime, ReaderWriterSequence, Role,
    WorkloadConfig, DEFAULT_LOWER_MILLIS, DEFAULT_READ_PERCENT, DEFAULT_UPPER_MILLIS,
};

#[test]
fn entry_from_draws_halves_the_gap() {
    assert_eq!(
        entry_from_draws(10, true, 10),
        RWEntry { rw_time: RWTime::ReadTime(10), enter_gap: 5 }
    );
    assert_eq!(
        entry_from_draws(24, false, 24),
        RWEntry { rw_time: RWTime::WriteTime(24), enter_gap: 12 }
    );
    assert_eq!(
        entry_from_draws(17, false, 13),
        RWEntry { rw_time: RWTime::WriteTime(17), enter_gap: 6 }
    );
    assert_eq!(entry_from_draws(0, true, 1), RWEntry { rw_time: RWTime::ReadTime(0), enter_gap: 0 });
    assert_eq!(
        entry_from_draws(u64::MAX, true, u64::MAX),
        RWEntry { rw_time: RWTime::ReadTime(u64::MAX), enter_gap: u64::MAX / 2 }
    );
}

#[test]
fn rw_time_gives_role_and_millis() {
    assert_eq!(RWTime::ReadTime(12).role(), Role::Read);
    assert_eq!(RWTime::WriteTime(12).role(), Role::Write);
    assert_eq!(RWTime::ReadTime(12).millis(), 12);
    assert_eq!(RWTime::WriteTime(23).millis(), 23);
}

#[test]
fn defaults_are_ten_to_twenty_four_and_four_in_five() {
    assert_eq!(DEFAULT_LOWER_MILLIS, 10);
    assert_eq!(DEFAULT_UPPER_MILLIS, 24);
    assert_eq!(DEFAULT_READ_PERCENT, 80);
    assert_eq!(
        WorkloadConfig::standard(50),
        WorkloadConfig { thread_num: 50, lower_millis: 10, upper_millis: 24, read_percent: 80 }
    );
}

#[test]
fn gen_rand_has_the_requested_length() {
    let mut rng = StdRng::seed_from_u64(1);
    for thread_num in [0u32, 1, 2, 50, 333] {
        let sequence = ReaderWriterSequence::gen_rand(thread_num, &mut rng);
        assert_eq!(sequence.len(), thread_num as usize);
        assert_eq!(sequence.entries().len(), thread_num as usize);
    }
}

#[test]
fn gen_rand_stays_within_the_default_range() {
    let mut rng = StdRng::seed_from_u64(7);
    let sequence = ReaderWriterSequence::gen_rand(2000, &mut rng);
    for entry in sequence.entries() {
        assert!((10..=24).contains(&entry.rw_time.millis()));
        assert!((5..=12).contains(&entry.enter_gap));
    }
}

#[test]
fn gen_rand_reaches_both_ends_and_both_roles() {
    let mut rng = StdRng::seed_from_u64(7);
    let sequence = ReaderWriterSequence::gen_rand(2000, &mut rng);
    let entries = sequence.entries();
    assert!(entries.iter().any(|entry| entry.rw_time.millis() == 10));
    assert!(entries.iter().any(|entry| entry.rw_time.millis() == 24));
    assert!(entries.iter().any(|entry| entry.enter_gap == 5));
    assert!(entries.iter().any(|entry| entry.enter_gap == 12));
    let readers = entries.iter().filter(|entry| entry.rw_time.role() == Role::Read).count();
    let writers = entries.len() - readers;
    assert!(readers > 1400 && readers < 1800);
    assert!(writers > 200 && writers < 600);
}

#[test]
fn gen_rand_draws_service_coin_and_gap_in_this_order() {
    let mut library = StdRng::seed_from_u64(42);
    let mut direct = StdRng::seed_from_u64(42);
    let sequence = ReaderWriterSequence::gen_rand(100, &mut library);
    for entry in sequence.entries() {
        let service: u64 = direct.gen_range(10..=24);
        let reads = direct.gen_ratio(80, 100);
        let gap: u64 = direct.gen_range(10..=24);
        assert_eq!(*entry, entry_from_draws(service, reads, gap));
    }
    assert_eq!(library.gen::<u64>(), direct.gen::<u64>());
}

#[test]
fn the_same_seed_gives_the_same_workload() {
    let mut first = StdRng::seed_from_u64(2024);
    let mut second = StdRng::seed_from_u64(2024);
    let a = ReaderWriterSequence::gen_rand(64, &mut first);
    let b = ReaderWriterSequence::gen_rand(64, &mut second);
    assert_eq!(a.entries(), b.entries());
}

#[test]
fn a_share_of_a_hundred_leaves_no_writer() {
    let mut rng = StdRng::seed_from_u64(3);
    let sequence = ReaderWriterSequence::draw(500, 10, 24, 100, &mut rng);
    assert!(sequence.entries().iter().all(|entry| entry.rw_time.role() == Role::Read));
}

#[test]
fn a_share_of_zero_leaves_no_reader() {
    let mut rng = StdRng::seed_from_u64(3);
    let sequence = ReaderWriterSequence::draw(500, 10, 24, 0, &mut rng);
    assert!(sequence.entries().iter().all(|entry| entry.rw_time.role() == Role::Write));
}

#[test]
fn a_range_of_one_value_draws_that_value() {
    let mut rng = StdRng::seed_from_u64(3);
    let sequence = ReaderWriterSequence::draw(50, 7, 7, 50, &mut rng);
    for entry in sequence.entries() {
        assert_eq!(entry.rw_time.millis(), 7);
        assert_eq!(entry.enter_gap, 3);
    }
}

#[test]
fn the_whole_range_of_integers_can_be_drawn_from() {
    let mut rng = StdRng::seed_from_u64(3);
    let sequence = ReaderWriterSequence::draw(50, 0, u64::MAX, 50, &mut rng);
    assert_eq!(sequence.len(), 50);
}

#[test]
fn validate_names_the_first_fault() {
    let good = WorkloadConfig { thread_num: 1, lower_millis: 3, upper_millis: 3, read_percent: 100 };
    assert_eq!(good.validate(), Ok(()));
    assert_eq!(WorkloadConfig::standard(50).validate(), Ok(()));
    assert_eq!(WorkloadConfig::standard(0).validate(), Err(ConfigurationError::NoThreads));
    let reversed = WorkloadConfig { lower_millis: 25, ..WorkloadConfig::standard(5) };
    assert_eq!(reversed.validate(), Err(ConfigurationError::ReversedRange));
    let share = WorkloadConfig { read_percent: 101, ..WorkloadConfig::standard(5) };
    assert_eq!(share.validate(), Err(ConfigurationError::ShareOutOfRange));
    let all = WorkloadConfig { thread_num: 0, lower_millis: 9, upper_millis: 1, read_percent: 500 };
    assert_eq!(all.validate(), Err(ConfigurationError::NoThreads));
    let two = WorkloadConfig { thread_num: 4, lower_millis: 9, upper_millis: 1, read_percent: 500 };
    assert_eq!(two.validate(), Err(ConfigurationError::ReversedRange));
}

#[test]
fn generate_rejects_before_it_draws() {
    let mut rng = StdRng::seed_from_u64(11);
    let mut untouched = StdRng::seed_from_u64(11);
    let bad = WorkloadConfig::standard(0);
    assert!(matches!(
        ReaderWriterSequence::generate(&bad, &mut rng),
        Err(ConfigurationError::NoThreads)
    ));
    assert_eq!(rng.gen::<u64>(), untouched.gen::<u64>());
}

#[test]
fn generate_follows_the_configuration() {
    let mut rng = StdRng::seed_from_u64(5);
    let config = WorkloadConfig { thread_num: 300, lower_millis: 100, upper_millis: 200, read_percent: 50 };
    let sequence = match ReaderWriterSequence::generate(&config, &mut rng) {
        Ok(sequence) => sequence,
        Err(fault) => panic!("rejected: {:?}", fault),
    };
    assert_eq!(sequence.len(), 300);
    for entry in sequence.entries() {
        assert!((100..=200).contains(&entry.rw_time.millis()));
        assert!((50..=100).contains(&entry.enter_gap));
    }
    let first = sequence.entries()[0].rw_time.millis();
    assert!(sequence.entries().iter().any(|entry| entry.rw_time.millis() != first));
}

#[test]
fn a_fixed_workload_keeps_its_order() {
    let entries = vec![
        RWEntry { rw_time: RWTime::WriteTime(10), enter_gap: 0 },
        RWEntry { rw_time: RWTime::ReadTime(10), enter_gap: 0 },
        RWEntry { rw_time: RWTime::WriteTime(10), enter_gap: 0 },
    ];
    let sequence = ReaderWriterSequence::new(entries.clone());
    assert_eq!(sequence.len(), 3);
    assert_eq!(sequence.entries(), &entries);
}
