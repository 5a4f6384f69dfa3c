//! An asynchronous proof-verification pipeline: a registry of proof
//! artifacts keyed by transaction id, a FIFO queue of verification requests,
//! and the decision logic of the single worker that drains the queue and
//! reports each outcome to a peer service.
pub mod records;
pub mod registry;
pub mod queue;
pub mod worker;
pub mod notify;
pub mod artifacts;
pub mod config;
