//! A small session-cookie authentication core: credential records hashed with
//! a memory-hard function, a pluggable account store bootstrapped from
//! tabular records, a process-wide session registry, and the request-gating
//! decision that composes them.

pub mod account;
pub mod cli;
pub mod gate;
pub mod hashing;
pub mod session;
pub mod store;
