//! The resolved search configuration, created once before any worker
//! starts and read-only thereafter.

use vstd::prelude::*;

verus! {

/// The immutable configuration of one search run.
///
/// `target` is the byte string the encoded public key must start with;
/// an empty target is valid and trivially matches everything.
/// `report_interval_secs` is `None` when throughput reporting is off.
pub struct SearchConfig {
    pub target: Vec<u8>,
    pub ignore_case: bool,
    pub stop_on_match: bool,
    pub worker_count: usize,
    pub report_interval_secs: Option<u64>,
}

impl SearchConfig {
    /// A well-formed configuration has at least one worker.
    pub open spec fn wf(&self) -> bool {
        self.worker_count >= 1
    }

    /// Builds a configuration. A zero worker count is a configuration
    /// error, surfaced here before any search work starts: the result is
    /// `None` exactly on that input, and otherwise the configuration
    /// with every field as given.
    pub fn new(
        target: Vec<u8>,
        ignore_case: bool,
        stop_on_match: bool,
        worker_count: usize,
        report_interval_secs: Option<u64>,
    ) -> (r: Option<SearchConfig>)
        ensures
            r is Some <==> worker_count >= 1,
            r matches Some(c) ==> {
                &&& c.wf()
                &&& c.target@ == target@
                &&& c.ignore_case == ignore_case
                &&& c.stop_on_match == stop_on_match
                &&& c.worker_count == worker_count
                &&& c.report_interval_secs == report_interval_secs
            },
    {
        if worker_count == 0 {
            None
        } else {
            Some(
                SearchConfig {
                    target,
                    ignore_case,
                    stop_on_match,
                    worker_count,
                    report_interval_secs,
                },
            )
        }
    }
}

} // verus!
