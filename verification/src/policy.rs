//! The lock of a run, chosen by its policy.

use crate::error::LockError;
use crate::guard::{Owner, ReadGuard, WriteGuard};
use crate::no_priority_rw_lock::NoPriorityRwLock;
use crate::writer_priority_rw_lock::WriterPriorityRwLock;
use vstd::prelude::*;

verus! {

/// The policy of the lock that a run uses.
#[derive(Clone, Copy, Debug, PartialEq, Eq, Structural)]
pub enum LockPolicy {
    NoPriority,
    WriterPriority,
}

/// The lock of a run, of either policy.
pub enum PolicyLock {
    NoPriority(NoPriorityRwLock),
    WriterPriority(WriterPriorityRwLock),
}

impl PolicyLock {
    /// The policy of the lock.
    pub open spec fn spec_policy(&self) -> LockPolicy {
        match self {
            PolicyLock::NoPriority(_) => LockPolicy::NoPriority,
            PolicyLock::WriterPriority(_) => LockPolicy::WriterPriority,
        }
    }

    /// The value the lock was created around.
    pub open spec fn initial_value(&self) -> i32 {
        match self {
            PolicyLock::NoPriority(lock) => lock.initial_value(),
            PolicyLock::WriterPriority(lock) => lock.initial_value(),
        }
    }

    /// The lock that a guard of this lock names as its owner.
    pub open spec fn as_owner(&self) -> Owner<'_> {
        match self {
            PolicyLock::NoPriority(lock) => Owner::NoPriority(lock),
            PolicyLock::WriterPriority(lock) => Owner::WriterPriority(lock),
        }
    }

    /// A lock of the given policy around `value`, which nobody uses.
    pub fn new(policy: LockPolicy, value: i32) -> (lock: PolicyLock)
        ensures
            lock.spec_policy() == policy,
            lock.initial_value() == value,
    {
        match policy {
            LockPolicy::NoPriority => PolicyLock::NoPriority(NoPriorityRwLock::new(value)),
            LockPolicy::WriterPriority => PolicyLock::WriterPriority(
                WriterPriorityRwLock::new(value),
            ),
        }
    }

    /// The policy of the lock.
    #[verifier::when_used_as_spec(spec_policy)]
    pub fn policy(&self) -> (policy: LockPolicy)
        ensures
            policy == self.spec_policy(),
    {
        match self {
            PolicyLock::NoPriority(_) => LockPolicy::NoPriority,
            PolicyLock::WriterPriority(_) => LockPolicy::WriterPriority,
        }
    }

    /// Enters a shared critical section, as the policy of the lock admits
    /// readers.
    pub fn read(&self) -> (r: Result<ReadGuard<'_>, LockError>)
        ensures
            r matches Ok(guard) ==> guard.owner() == self.as_owner(),
    {
        match self {
            PolicyLock::NoPriority(lock) => lock.read(),
            PolicyLock::WriterPriority(lock) => lock.read(),
        }
    }

    /// Enters an exclusive critical section, as the policy of the lock
    /// admits writers.
    pub fn write(&self) -> (r: Result<WriteGuard<'_>, LockError>)
        ensures
            r matches Ok(guard) ==> guard.owner() == self.as_owner(),
    {
        match self {
            PolicyLock::NoPriority(lock) => lock.write(),
            PolicyLock::WriterPriority(lock) => lock.write(),
        }
    }
}

} // verus!
