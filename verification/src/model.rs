//! A ghost model of a whole search run, and the laws proved over it.
//!
//! A run is a set of workers sharing one termination flag and one
//! operation counter. Each worker is an explicit state machine: it is
//! `Running` until it observes the flag at a batch boundary, `Stopping`
//! once it has, and `Stopped` after flushing its final counter
//! increment. The events of [`RunEvent`] are the observable actions of
//! the concurrent system — any interleaving of them over the workers is
//! a valid schedule, so a property proved of every enabled event
//! sequence holds of every execution of the real loops.

use crate::worker::BATCH_SIZE;
use vstd::prelude::*;

verus! {

/// The phase of one worker's cancellation state machine.
pub enum WorkerPhase {
    Running,
    Stopping,
    Stopped,
}

/// One worker, as the run sees it: its phase, how many batches it has
/// completed, and how many completed operations it has not yet flushed
/// into the shared counter.
pub struct WorkerModel {
    pub phase: WorkerPhase,
    pub batches: nat,
    pub pending: nat,
}

/// The shared state of a run: the configuration bit that matters to
/// termination, the termination flag, the operation counter, the total
/// the reporter has drained out of the counter so far, and the workers.
pub struct RunModel {
    pub stop_on_match: bool,
    pub flag: bool,
    pub counter: nat,
    pub drained: nat,
    pub workers: Seq<WorkerModel>,
}

/// The observable actions of a run, in any interleaving.
pub enum RunEvent {
    /// A worker observes the termination flag at a batch boundary.
    Check { worker: int },
    /// A worker completes one batch; `matched` says of each attempt
    /// whether it satisfied the predicate.
    Batch { worker: int, matched: Seq<bool> },
    /// A worker flushes its pending operations into the shared counter.
    Flush { worker: int },
    /// A worker that has observed the flag and flushed its final
    /// increment stops.
    Finish { worker: int },
    /// The reporter drains the counter: reads it and resets it to zero
    /// in one step.
    Drain,
}

/// The initial state: flag unset, counter empty, nothing drained, every
/// worker running with no work done.
pub open spec fn init(s: RunModel) -> bool {
    &&& !s.flag
    &&& s.counter == 0
    &&& s.drained == 0
    &&& forall|i: int|
        0 <= i < s.workers.len() ==> s.workers[i] == (WorkerModel {
            phase: WorkerPhase::Running,
            batches: 0,
            pending: 0,
        })
}

/// When an event can occur: batches are run and the flag is checked
/// only by `Running` workers, a worker finishes only once it is
/// `Stopping` with nothing left to flush, and the reporter may drain at
/// any time.
pub open spec fn enabled(s: RunModel, e: RunEvent) -> bool {
    match e {
        RunEvent::Check { worker } => {
            &&& 0 <= worker < s.workers.len()
            &&& s.workers[worker].phase is Running
        },
        RunEvent::Batch { worker, matched } => {
            &&& 0 <= worker < s.workers.len()
            &&& s.workers[worker].phase is Running
            &&& matched.len() == BATCH_SIZE
        },
        RunEvent::Flush { worker } => {
            &&& 0 <= worker < s.workers.len()
            &&& !(s.workers[worker].phase is Stopped)
        },
        RunEvent::Finish { worker } => {
            &&& 0 <= worker < s.workers.len()
            &&& s.workers[worker].phase is Stopping
            &&& s.workers[worker].pending == 0
        },
        RunEvent::Drain => true,
    }
}

/// The transition relation, as a function of the event.
pub open spec fn step(s: RunModel, e: RunEvent) -> RunModel {
    match e {
        RunEvent::Check { worker } => if s.flag {
            RunModel {
                workers: s.workers.update(
                    worker,
                    WorkerModel { phase: WorkerPhase::Stopping, ..s.workers[worker] },
                ),
                ..s
            }
        } else {
            s
        },
        RunEvent::Batch { worker, matched } => {
            let w = s.workers[worker];
            RunModel {
                flag: s.flag || (s.stop_on_match && exists|j: int|
                    0 <= j < matched.len() && matched[j]),
                workers: s.workers.update(
                    worker,
                    WorkerModel {
                        batches: w.batches + 1,
                        pending: (w.pending + BATCH_SIZE) as nat,
                        ..w
                    },
                ),
                ..s
            }
        },
        RunEvent::Flush { worker } => {
            let w = s.workers[worker];
            RunModel {
                counter: s.counter + w.pending,
                workers: s.workers.update(worker, WorkerModel { pending: 0, ..w }),
                ..s
            }
        },
        RunEvent::Finish { worker } => RunModel {
            workers: s.workers.update(
                worker,
                WorkerModel { phase: WorkerPhase::Stopped, ..s.workers[worker] },
            ),
            ..s
        },
        RunEvent::Drain => RunModel { counter: 0, drained: s.drained + s.counter, ..s },
    }
}

/// The state after a sequence of events.
pub open spec fn run(s: RunModel, es: Seq<RunEvent>) -> RunModel
    decreases es.len(),
{
    if es.len() == 0 {
        s
    } else {
        run(step(s, es[0]), es.drop_first())
    }
}

/// Every event of the sequence is enabled in the state it runs from.
pub open spec fn trace_enabled(s: RunModel, es: Seq<RunEvent>) -> bool
    decreases es.len(),
{
    es.len() == 0 || (enabled(s, es[0]) && trace_enabled(step(s, es[0]), es.drop_first()))
}

/// Total batches completed across all workers.
pub open spec fn total_batches(ws: Seq<WorkerModel>) -> nat
    decreases ws.len(),
{
    if ws.len() == 0 {
        0
    } else {
        total_batches(ws.drop_last()) + ws.last().batches
    }
}

/// Total unflushed operations across all workers.
pub open spec fn total_pending(ws: Seq<WorkerModel>) -> nat
    decreases ws.len(),
{
    if ws.len() == 0 {
        0
    } else {
        total_pending(ws.drop_last()) + ws.last().pending
    }
}

/// The counter accounting invariant: every operation a worker has ever
/// completed is in exactly one of the shared counter, the drained
/// total, or its own unflushed remainder — none lost, none duplicated.
pub open spec fn counter_invariant(s: RunModel) -> bool {
    s.counter + s.drained + total_pending(s.workers) == BATCH_SIZE * total_batches(s.workers)
}

proof fn lemma_total_batches_update(ws: Seq<WorkerModel>, i: int, w: WorkerModel)
    requires
        0 <= i < ws.len(),
    ensures
        total_batches(ws.update(i, w)) == total_batches(ws) - ws[i].batches + w.batches,
    decreases ws.len(),
{
    if i == ws.len() - 1 {
        assert(ws.update(i, w).drop_last() =~= ws.drop_last());
    } else {
        lemma_total_batches_update(ws.drop_last(), i, w);
        assert(ws.update(i, w).drop_last() =~= ws.drop_last().update(i, w));
    }
}

proof fn lemma_total_pending_update(ws: Seq<WorkerModel>, i: int, w: WorkerModel)
    requires
        0 <= i < ws.len(),
    ensures
        total_pending(ws.update(i, w)) == total_pending(ws) - ws[i].pending + w.pending,
    decreases ws.len(),
{
    if i == ws.len() - 1 {
        assert(ws.update(i, w).drop_last() =~= ws.drop_last());
    } else {
        lemma_total_pending_update(ws.drop_last(), i, w);
        assert(ws.update(i, w).drop_last() =~= ws.drop_last().update(i, w));
    }
}

proof fn lemma_total_batches_zero(ws: Seq<WorkerModel>)
    requires
        forall|i: int| 0 <= i < ws.len() ==> ws[i].batches == 0,
    ensures
        total_batches(ws) == 0,
    decreases ws.len(),
{
    if ws.len() > 0 {
        lemma_total_batches_zero(ws.drop_last());
    }
}

proof fn lemma_total_pending_zero(ws: Seq<WorkerModel>)
    requires
        forall|i: int| 0 <= i < ws.len() ==> ws[i].pending == 0,
    ensures
        total_pending(ws) == 0,
    decreases ws.len(),
{
    if ws.len() > 0 {
        lemma_total_pending_zero(ws.drop_last());
    }
}

/// Termination monotonicity, one step: once the flag is true, no event
/// of the run ever makes it false again.
pub proof fn lemma_flag_monotonic(s: RunModel, e: RunEvent)
    requires
        s.flag,
    ensures
        step(s, e).flag,
{
}

/// Termination monotonicity, whole run: once the flag is observed true,
/// it is true after every later event of the run.
pub proof fn lemma_flag_monotonic_run(s: RunModel, es: Seq<RunEvent>)
    requires
        s.flag,
    ensures
        run(s, es).flag,
    decreases es.len(),
{
    if es.len() > 0 {
        lemma_flag_monotonic(s, es[0]);
        lemma_flag_monotonic_run(step(s, es[0]), es.drop_first());
    }
}

/// The counter accounting invariant is preserved by every enabled
/// event.
pub proof fn lemma_counter_invariant_step(s: RunModel, e: RunEvent)
    requires
        counter_invariant(s),
        enabled(s, e),
    ensures
        counter_invariant(step(s, e)),
{
    match e {
        RunEvent::Check { worker } => {
            if s.flag {
                let w = WorkerModel { phase: WorkerPhase::Stopping, ..s.workers[worker] };
                lemma_total_batches_update(s.workers, worker, w);
                lemma_total_pending_update(s.workers, worker, w);
            }
        },
        RunEvent::Batch { worker, matched } => {
            let w0 = s.workers[worker];
            let w = WorkerModel { batches: w0.batches + 1, pending: (w0.pending + BATCH_SIZE) as nat, ..w0 };
            lemma_total_batches_update(s.workers, worker, w);
            lemma_total_pending_update(s.workers, worker, w);
        },
        RunEvent::Flush { worker } => {
            let w0 = s.workers[worker];
            let w = WorkerModel { pending: 0, ..w0 };
            lemma_total_batches_update(s.workers, worker, w);
            lemma_total_pending_update(s.workers, worker, w);
        },
        RunEvent::Finish { worker } => {
            let w = WorkerModel { phase: WorkerPhase::Stopped, ..s.workers[worker] };
            lemma_total_batches_update(s.workers, worker, w);
            lemma_total_pending_update(s.workers, worker, w);
        },
        RunEvent::Drain => {},
    }
}

/// The counter accounting invariant holds after every enabled event
/// sequence.
pub proof fn lemma_counter_invariant_run(s: RunModel, es: Seq<RunEvent>)
    requires
        counter_invariant(s),
        trace_enabled(s, es),
    ensures
        counter_invariant(run(s, es)),
    decreases es.len(),
{
    if es.len() > 0 {
        lemma_counter_invariant_step(s, es[0]);
        lemma_counter_invariant_run(step(s, es[0]), es.drop_first());
    }
}

proof fn lemma_no_drain_drained_constant(s: RunModel, es: Seq<RunEvent>)
    requires
        forall|k: int| 0 <= k < es.len() ==> !(es[k] is Drain),
    ensures
        run(s, es).drained == s.drained,
    decreases es.len(),
{
    if es.len() > 0 {
        assert(!(es[0] is Drain));
        lemma_no_drain_drained_constant(step(s, es[0]), es.drop_first());
    }
}

/// Counter conservation: over a run from the initial state in which the
/// reporter never drains, once every worker has flushed its last
/// increment the shared counter holds exactly
/// `BATCH_SIZE * (total batches completed)` — no increment is lost or
/// duplicated.
pub proof fn lemma_counter_conservation(s0: RunModel, es: Seq<RunEvent>)
    requires
        init(s0),
        trace_enabled(s0, es),
        forall|k: int| 0 <= k < es.len() ==> !(es[k] is Drain),
        forall|i: int| 0 <= i < run(s0, es).workers.len() ==> run(s0, es).workers[i].pending == 0,
    ensures
        run(s0, es).counter == BATCH_SIZE * total_batches(run(s0, es).workers),
{
    lemma_total_batches_zero(s0.workers);
    lemma_total_pending_zero(s0.workers);
    lemma_counter_invariant_run(s0, es);
    lemma_no_drain_drained_constant(s0, es);
    lemma_total_pending_zero(run(s0, es).workers);
}

/// Without stop-on-match, no single event sets the flag.
pub proof fn lemma_no_stop_step(s: RunModel, e: RunEvent)
    requires
        !s.stop_on_match,
        !s.flag,
    ensures
        !step(s, e).flag,
{
}

/// All workers running and the flag unset is stable when stop-on-match
/// is off.
pub open spec fn all_running_unset(s: RunModel) -> bool {
    &&& !s.flag
    &&& forall|i: int| 0 <= i < s.workers.len() ==> s.workers[i].phase is Running
}

/// No-stop liveness, whole run: with stop-on-match off, no enabled
/// event sequence ever sets the flag or moves any worker out of
/// `Running` — so a wait that completes only once every worker has
/// `Stopped` never completes on its own.
pub proof fn lemma_no_stop_never_stops(s: RunModel, es: Seq<RunEvent>)
    requires
        !s.stop_on_match,
        all_running_unset(s),
        trace_enabled(s, es),
    ensures
        all_running_unset(run(s, es)),
    decreases es.len(),
{
    if es.len() > 0 {
        let s1 = step(s, es[0]);
        lemma_no_stop_step(s, es[0]);
        assert(all_running_unset(s1)) by {
            match es[0] {
                RunEvent::Check { worker } => {},
                RunEvent::Batch { worker, matched } => {},
                RunEvent::Flush { worker } => {},
                RunEvent::Finish { worker } => {},
                RunEvent::Drain => {},
            }
        }
        lemma_no_stop_never_stops(s1, es.drop_first());
    }
}

/// Stop-on-match: a batch that contains at least one matching attempt
/// sets the termination flag.
pub proof fn lemma_match_sets_flag(s: RunModel, worker: int, matched: Seq<bool>)
    requires
        s.stop_on_match,
        enabled(s, RunEvent::Batch { worker, matched }),
        exists|j: int| 0 <= j < matched.len() && matched[j],
    ensures
        step(s, RunEvent::Batch { worker, matched }).flag,
{
}

/// A worker that observes the set flag at its batch boundary leaves
/// `Running` at once.
pub proof fn lemma_flag_observed_stops(s: RunModel, worker: int)
    requires
        s.flag,
        enabled(s, RunEvent::Check { worker }),
    ensures
        step(s, RunEvent::Check { worker }).workers[worker].phase is Stopping,
{
}

/// No transition returns a worker to `Running` once it has left it.
pub proof fn lemma_not_running_stays(s: RunModel, e: RunEvent, i: int)
    requires
        0 <= i < s.workers.len(),
        !(s.workers[i].phase is Running),
        enabled(s, e),
    ensures
        0 <= i < step(s, e).workers.len(),
        !(step(s, e).workers[i].phase is Running),
{
}

/// True of an event exactly when it is a batch completed by worker `i`.
pub open spec fn is_batch_of(e: RunEvent, i: int) -> bool {
    match e {
        RunEvent::Batch { worker, matched } => worker == i,
        _ => false,
    }
}

/// A worker that has left `Running` never starts another batch: no
/// enabled continuation of the run contains a batch of that worker.
pub proof fn lemma_no_batch_once_stopping(s: RunModel, es: Seq<RunEvent>, i: int)
    requires
        trace_enabled(s, es),
        0 <= i < s.workers.len(),
        !(s.workers[i].phase is Running),
    ensures
        forall|k: int| 0 <= k < es.len() ==> !is_batch_of(es[k], i),
    decreases es.len(),
{
    if es.len() > 0 {
        lemma_not_running_stays(s, es[0], i);
        lemma_no_batch_once_stopping(step(s, es[0]), es.drop_first(), i);
        assert forall|k: int| 0 <= k < es.len() implies !is_batch_of(es[k], i) by {
            if k > 0 {
                assert(es[k] == es.drop_first()[k - 1]);
            }
        }
    }
}

/// Stop-on-match, the bounded-work half: once the flag is set and a
/// worker observes it at its batch boundary, that worker performs no
/// further batch in any continuation of the run. Together with
/// [`lemma_match_sets_flag`] and [`lemma_flag_monotonic_run`], a match
/// under stop-on-match bounds every worker's excess work to the one
/// batch it may already have begun when the flag went up.
pub proof fn lemma_observed_flag_bounds_work(s: RunModel, worker: int, es: Seq<RunEvent>)
    requires
        s.flag,
        enabled(s, RunEvent::Check { worker }),
        trace_enabled(step(s, RunEvent::Check { worker }), es),
    ensures
        forall|k: int| 0 <= k < es.len() ==> !is_batch_of(es[k], worker),
{
    lemma_flag_observed_stops(s, worker);
    lemma_no_batch_once_stopping(step(s, RunEvent::Check { worker }), es, worker);
}

/// `Stopped` is terminal: no enabled event moves a stopped worker out
/// of `Stopped`, so once every worker has stopped, the join stays
/// complete.
pub proof fn lemma_stopped_stays(s: RunModel, e: RunEvent, i: int)
    requires
        0 <= i < s.workers.len(),
        s.workers[i].phase is Stopped,
        enabled(s, e),
    ensures
        0 <= i < step(s, e).workers.len(),
        step(s, e).workers[i].phase is Stopped,
{
}

} // verus!
