//! The value that a reader-writer lock protects, behind a mutex of its own
//! that is held only for the moment of a load or a store.

use crate::error::LockError;
use crate::sync::{counter_created_with, counter_get, counter_lock, counter_new, counter_set};
use std::sync::Mutex;
use vstd::prelude::*;

verus! {

/// An integer shared by the callers of a lock.
pub struct Protected {
    cell: Mutex<i32>,
}

impl Protected {
    /// The value at the start.
    pub closed spec fn initial(&self) -> i32 {
        counter_created_with(self.cell)
    }

    /// A protected `value`.
    pub(crate) fn new(value: i32) -> (protected: Protected)
        ensures
            protected.initial() == value,
    {
        Protected { cell: counter_new(value) }
    }

    /// The value as it is now.
    pub(crate) fn load(&self) -> (r: Result<i32, LockError>)
        ensures
            r matches Err(e) ==> e == LockError::Poisoned,
    {
        match counter_lock(&self.cell) {
            Ok(guard) => Ok(counter_get(&guard)),
            Err(_) => Err(LockError::Poisoned),
        }
    }

    /// Replaces the value.
    pub(crate) fn store(&self, value: i32) -> (r: Result<(), LockError>)
        ensures
            r matches Err(e) ==> e == LockError::Poisoned,
    {
        match counter_lock(&self.cell) {
            Ok(mut guard) => {
                counter_set(&mut guard, value);
                Ok(())
            },
            Err(_) => Err(LockError::Poisoned),
        }
    }
}

} // verus!
