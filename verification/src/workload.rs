//! The workload that is run against a lock: an ordered sequence of timed
//! reader and writer requests, drawn at random.

use crate::random::{draw_between, draw_ratio};
use rand::rngs::StdRng;
use vstd::prelude::*;

verus! {

/// The shortest service time that is drawn by default, in milliseconds.
pub const DEFAULT_LOWER_MILLIS: u64 = 10;

/// The longest service time that is drawn by default, in milliseconds.
pub const DEFAULT_UPPER_MILLIS: u64 = 24;

/// The share of readers among the requests by default, in percent.
pub const DEFAULT_READ_PERCENT: u32 = 80;

/// Whether a request reads or writes.
#[derive(Clone, Copy, Debug, PartialEq, Eq, Structural)]
pub enum Role {
    Read,
    Write,
}

/// The role of a request and the time it spends inside its critical section,
/// in milliseconds.
#[derive(Clone, Copy, Debug, PartialEq, Eq, Structural)]
pub enum RWTime {
    ReadTime(u64),
    WriteTime(u64),
}

impl RWTime {
    /// The role of the request.
    pub open spec fn spec_role(self) -> Role {
        match self {
            RWTime::ReadTime(_) => Role::Read,
            RWTime::WriteTime(_) => Role::Write,
        }
    }

    /// The time inside the critical section, in milliseconds.
    pub open spec fn spec_millis(self) -> u64 {
        match self {
            RWTime::ReadTime(millis) => millis,
            RWTime::WriteTime(millis) => millis,
        }
    }

    /// The role of the request.
    #[verifier::when_used_as_spec(spec_role)]
    pub fn role(self) -> (role: Role)
        ensures
            role == self.spec_role(),
    {
        match self {
            RWTime::ReadTime(_) => Role::Read,
            RWTime::WriteTime(_) => Role::Write,
        }
    }

    /// The time inside the critical section, in milliseconds.
    #[verifier::when_used_as_spec(spec_millis)]
    pub fn millis(self) -> (millis: u64)
        ensures
            millis == self.spec_millis(),
    {
        match self {
            RWTime::ReadTime(millis) => millis,
            RWTime::WriteTime(millis) => millis,
        }
    }
}

/// One request of a workload: what it does and for how long, and the pause
/// before it is launched, counted from the launch of the request before it,
/// in milliseconds.
#[derive(Clone, Copy, Debug, PartialEq, Eq, Structural)]
pub struct RWEntry {
    pub rw_time: RWTime,
    pub enter_gap: u64,
}

/// The request that three draws make: the service time as drawn, a reader
/// where the coin said so, and half of the second draw, rounded down, as the
/// pause.
pub open spec fn spec_entry_from_draws(service: u64, reads: bool, gap: u64) -> RWEntry {
    RWEntry {
        rw_time: if reads {
            RWTime::ReadTime(service)
        } else {
            RWTime::WriteTime(service)
        },
        enter_gap: gap / 2,
    }
}

/// Makes a request from three draws.
pub fn entry_from_draws(service: u64, reads: bool, gap: u64) -> (entry: RWEntry)
    ensures
        entry == spec_entry_from_draws(service, reads, gap),
{
    RWEntry {
        rw_time: if reads {
            RWTime::ReadTime(service)
        } else {
            RWTime::WriteTime(service)
        },
        enter_gap: gap / 2,
    }
}

/// A request that can be drawn when service times lie between `lower` and
/// `upper`: its service time lies between them, and its pause between their
/// halves.
pub open spec fn entry_within(entry: RWEntry, lower: u64, upper: u64) -> bool {
    &&& lower <= entry.rw_time.spec_millis() <= upper
    &&& lower / 2 <= entry.enter_gap <= upper / 2
}

/// A request that can be drawn when `read_percent` requests in a hundred
/// read: a share of a hundred leaves no writer, a share of zero no reader.
pub open spec fn role_within(entry: RWEntry, read_percent: u32) -> bool {
    &&& read_percent == 100 ==> entry.rw_time.spec_role() == Role::Read
    &&& read_percent == 0 ==> entry.rw_time.spec_role() == Role::Write
}

/// Why a workload is not drawn.
#[derive(Clone, Copy, Debug, PartialEq, Eq, Structural)]
pub enum ConfigurationError {
    /// No request was asked for.
    NoThreads,
    /// The shortest service time is longer than the longest.
    ReversedRange,
    /// More than a hundred requests in a hundred are to read.
    ShareOutOfRange,
}

/// How a workload is drawn.
#[derive(Clone, Copy, Debug, PartialEq, Eq, Structural)]
pub struct WorkloadConfig {
    /// The number of requests.
    pub thread_num: u32,
    /// The shortest service time, in milliseconds.
    pub lower_millis: u64,
    /// The longest service time, in milliseconds.
    pub upper_millis: u64,
    /// How many requests in a hundred read.
    pub read_percent: u32,
}

impl WorkloadConfig {
    /// What is wrong with the configuration, if anything: the first of the
    /// three faults that it has.
    pub open spec fn fault(self) -> Option<ConfigurationError> {
        if self.thread_num == 0 {
            Some(ConfigurationError::NoThreads)
        } else if self.lower_millis > self.upper_millis {
            Some(ConfigurationError::ReversedRange)
        } else if self.read_percent > 100 {
            Some(ConfigurationError::ShareOutOfRange)
        } else {
            None
        }
    }

    /// The default configuration for `thread_num` requests: service times of
    /// 10 to 24 milliseconds, four readers in five requests.
    pub fn standard(thread_num: u32) -> (config: WorkloadConfig)
        ensures
            config == (WorkloadConfig {
                thread_num,
                lower_millis: 10,
                upper_millis: 24,
                read_percent: 80,
            }),
    {
        WorkloadConfig {
            thread_num,
            lower_millis: DEFAULT_LOWER_MILLIS,
            upper_millis: DEFAULT_UPPER_MILLIS,
            read_percent: DEFAULT_READ_PERCENT,
        }
    }

    /// Accepts the configuration, or names its first fault.
    pub fn validate(&self) -> (r: Result<(), ConfigurationError>)
        ensures
            self.fault() is None ==> r is Ok,
            self.fault() matches Some(fault) ==> r == Err::<(), ConfigurationError>(fault),
    {
        if self.thread_num == 0 {
            Err(ConfigurationError::NoThreads)
        } else if self.lower_millis > self.upper_millis {
            Err(ConfigurationError::ReversedRange)
        } else if self.read_percent > 100 {
            Err(ConfigurationError::ShareOutOfRange)
        } else {
            Ok(())
        }
    }
}

/// An ordered sequence of requests. It does not change once it is made.
pub struct ReaderWriterSequence {
    entries: Vec<RWEntry>,
}

impl View for ReaderWriterSequence {
    type V = Seq<RWEntry>;

    closed spec fn view(&self) -> Seq<RWEntry> {
        self.entries@
    }
}

impl ReaderWriterSequence {
    /// Every request can be drawn with service times between `lower` and
    /// `upper` and with `read_percent` readers in a hundred.
    pub open spec fn drawn_within(self, lower: u64, upper: u64, read_percent: u32) -> bool {
        forall|i: int|
            0 <= i < self@.len() ==> entry_within(#[trigger] self@[i], lower, upper) && role_within(
                self@[i],
                read_percent,
            )
    }

    /// The workload of the given requests, in their order.
    pub fn new(entries: Vec<RWEntry>) -> (sequence: ReaderWriterSequence)
        ensures
            sequence@ == entries@,
    {
        ReaderWriterSequence { entries }
    }

    /// The requests, in their order.
    pub fn entries(&self) -> (entries: &Vec<RWEntry>)
        ensures
            entries@ == self@,
    {
        &self.entries
    }

    /// The number of requests.
    pub fn len(&self) -> (len: usize)
        ensures
            len == self@.len(),
    {
        self.entries.len()
    }

    /// Draws `thread_num` requests from `rng`, each from three draws in this
    /// order: a service time between `lower` and `upper`, a coin that makes
    /// the request a reader `read_percent` times in a hundred, and a second
    /// value between `lower` and `upper`, half of which is the pause.
    pub fn draw(
        thread_num: u32,
        lower: u64,
        upper: u64,
        read_percent: u32,
        rng: &mut StdRng,
    ) -> (sequence: ReaderWriterSequence)
        requires
            lower <= upper,
            read_percent <= 100,
        ensures
            sequence@.len() == thread_num,
            sequence.drawn_within(lower, upper, read_percent),
    {
        let mut entries: Vec<RWEntry> = Vec::new();
        let mut made: u32 = 0;
        while made < thread_num
            invariant
                made <= thread_num,
                entries@.len() == made,
                lower <= upper,
                read_percent <= 100,
                forall|i: int|
                    0 <= i < entries@.len() ==> entry_within(#[trigger] entries@[i], lower, upper)
                        && role_within(entries@[i], read_percent),
            decreases thread_num - made,
        {
            let service = draw_between(rng, lower, upper);
            let reads = draw_ratio(rng, read_percent, 100);
            let gap = draw_between(rng, lower, upper);
            entries.push(entry_from_draws(service, reads, gap));
            made = made + 1;
        }
        ReaderWriterSequence { entries }
    }

    /// Draws `thread_num` requests with the default configuration: service
    /// times of 10 to 24 milliseconds, pauses of 5 to 12, four readers in
    /// five requests.
    pub fn gen_rand(thread_num: u32, rng: &mut StdRng) -> (sequence: ReaderWriterSequence)
        ensures
            sequence@.len() == thread_num,
            sequence.drawn_within(10, 24, 80),
            forall|i: int|
                0 <= i < sequence@.len() ==> 5 <= (#[trigger] sequence@[i]).enter_gap <= 12,
    {
        ReaderWriterSequence::draw(
            thread_num,
            DEFAULT_LOWER_MILLIS,
            DEFAULT_UPPER_MILLIS,
            DEFAULT_READ_PERCENT,
            rng,
        )
    }

    /// Draws the workload that `config` describes, or names the first fault
    /// of `config`.
    pub fn generate(config: &WorkloadConfig, rng: &mut StdRng) -> (r: Result<
        ReaderWriterSequence,
        ConfigurationError,
    >)
        ensures
            config.fault() matches Some(fault) ==> r == Err::<
                ReaderWriterSequence,
                ConfigurationError,
            >(fault),
            config.fault() is None ==> r is Ok && r.unwrap()@.len() == config.thread_num
                && r.unwrap().drawn_within(
                config.lower_millis,
                config.upper_millis,
                config.read_percent,
            ),
    {
        match config.validate() {
            Ok(()) => Ok(
                ReaderWriterSequence::draw(
                    config.thread_num,
                    config.lower_millis,
                    config.upper_millis,
                    config.read_percent,
                    rng,
                ),
            ),
            Err(fault) => Err(fault),
        }
    }
}

} // verus!
