//! Asynchronous job orchestration for an out-of-band proof computation.
//!
//! The crate tracks units of long-running work: a submission is assigned a
//! fresh identity and a `Pending` record in a shared job store; the run's
//! terminal outcome is written back exactly once; clients discover it by
//! explicit polling or by a bounded long-poll with keep-alives; a janitor
//! sweep bounds the store by purging terminal records.

pub mod digits;
pub mod invoker;
pub mod job;
pub mod lifecycle;
pub mod longpoll;
pub mod store;
pub mod trusted;
pub mod verification;
