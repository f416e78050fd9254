use vstd::prelude::*;

verus! {

/// Why an operation on a semaphore or a lock gave up.
///
/// Both outcomes are fatal for the lock concerned: its bookkeeping is left as
/// it was found and no recovery is attempted.
#[derive(Clone, Copy, Debug, PartialEq, Eq, Structural)]
pub enum LockError {
    /// A mutex guarding the bookkeeping was poisoned by a holder that failed.
    Poisoned,
    /// A counter of the bookkeeping would have left its range.
    CounterOutOfRange,
}

} // verus!
