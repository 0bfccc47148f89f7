//! Brute-force search for keypairs whose address ends in a chosen suffix.
//!
//! The crate holds the decisions of the search: the suffix test, the shared
//! progress counters, the bounded retry of a failed store, the per-worker
//! state machine and the supervisor's restart cycle. Storing a record,
//! waiting and yielding to a scheduler are left to the caller, who performs
//! the action a state machine asks for and reports back what happened.

pub mod document;
pub mod keypair;
pub mod predicate;
pub mod progress;
pub mod retry;
pub mod supervisor;
pub mod wallet_generator;
pub mod worker;
