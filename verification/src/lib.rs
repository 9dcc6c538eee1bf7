//! A parallel brute-force search for "vanity" keypairs: keypairs whose
//! encoded public key starts with a chosen target string.
//!
//! The library holds the verified core: the prefix predicate, the
//! per-batch worker step, the shared termination flag and operation
//! counter, throughput arithmetic, and a ghost model of a whole run with
//! proofs of its conservation and monotonicity laws. The surrounding
//! binary supplies argument parsing, thread spawning and the unbounded
//! polling loops, which hand plain values to the functions here.

pub mod cells;
pub mod config;
pub mod model;
pub mod predicate;
pub mod reporter;
pub mod worker;
