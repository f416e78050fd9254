//! A counting semaphore, two reader-writer locks built on blocking
//! primitives, and the harness that runs a random workload against either
//! lock to compare how fairly each treats writers.
//!
//! The locks keep their bookkeeping behind a mutex and change it only by the
//! steps of a small state machine. `semaphore`, `no_priority_rw_lock` and
//! `writer_priority_rw_lock` hold the rules of those steps next to the code
//! that blocks; `no_priority_model` and `writer_priority_model` prove what
//! holds of every run of the steps: mutual exclusion, shared reading, the
//! precedence of waiting writers, and that no increment of a writer is lost.
//! `workload` draws the requests, `dispatch` orders them and turns completion
//! times into the fairness ratio. `sync` and `random` are the calls into the
//! standard library and into `rand` that are taken on trust.
//!
//! The count of a semaphore and the bookkeeping of a lock are shared between
//! threads, so the contract of an operation that takes `&self` cannot speak
//! of them: it says which results can come, and whether the call succeeds is
//! decided by the mutex. What an operation does to the shared state is
//! stated and proved where that state is in hand, in the contracts of the
//! functions that work behind a held guard (`take_behind`, `return_behind`,
//! `arrive_behind`, `leave_behind`, `step_behind`), over the same rules that
//! the models are made of.

pub mod dispatch;
pub mod error;
pub mod guard;
pub mod no_priority_model;
pub mod no_priority_rw_lock;
pub mod policy;
pub mod protected;
pub mod protocol;
pub mod random;
pub mod semaphore;
pub mod sync;
pub mod workload;
pub mod writer_priority_model;
pub mod writer_priority_rw_lock;
