//! The two process-wide shared cells: the termination flag and the
//! operation counter. Both are lock-free atomics, shared by reference
//! with every worker and the reporter. The atomic operations themselves
//! carry no value-level contracts here; what a whole run guarantees
//! about them is stated and proved over the run model in [`crate::model`].

use std::sync::atomic::AtomicBool;
use std::sync::atomic::AtomicUsize;
use std::sync::atomic::Ordering;
use vstd::prelude::*;

verus! {

/// The process-wide termination flag. Starts `false`; the only write
/// ever performed on it is [`TerminationFlag::set`], which stores `true`,
/// so the value is monotonic for the lifetime of the run (proved over
/// the run model as `crate::model::lemma_flag_monotonic`).
pub struct TerminationFlag {
    cell: AtomicBool,
}

impl TerminationFlag {
    /// A fresh flag, not yet set.
    pub fn new() -> TerminationFlag {
        TerminationFlag { cell: AtomicBool::new(false) }
    }

    /// Establishes the set state durably. Idempotent: the stored value is
    /// always `true`, so racing setters all leave the flag set.
    pub fn set(&self) {
        self.cell.store(true, Ordering::Relaxed);
    }

    /// Non-blocking read of the flag.
    pub fn is_set(&self) -> bool {
        self.cell.load(Ordering::Relaxed)
    }
}

/// The process-wide operation counter. Workers add to it in batches;
/// the reporter drains it (read-and-reset-to-zero in one atomic step).
pub struct OperationCounter {
    cell: AtomicUsize,
}

impl OperationCounter {
    /// A fresh counter at zero.
    pub fn new() -> OperationCounter {
        OperationCounter { cell: AtomicUsize::new(0) }
    }

    /// Adds `n` operations in one atomic increment. Wraps on overflow,
    /// as the underlying atomic does.
    pub fn add(&self, n: usize) {
        self.cell.fetch_add(n, Ordering::AcqRel);
    }

    /// Drains the counter: returns the current value and resets it to
    /// zero in one atomic step, so an increment racing with the drain
    /// lands either in the returned value or in the next window, never
    /// in both and never in neither.
    pub fn drain(&self) -> usize {
        self.cell.swap(0, Ordering::AcqRel)
    }
}

} // verus!
