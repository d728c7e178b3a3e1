use crate::batch::{
    batch_session_ambiguous_interruption, counted, error_code, forced_interruption_message, merge_fatal_exit_code,
    spec_forced_interruption_message, spec_merge_fatal, spec_processed, BatchSummary, OperationOutcome,
    OutcomeCounters, OutcomeStatus,
};
use crate::checkpoint::{opt_view, OperationKind, StartedMetadata};
use crate::error::{CliError, PublicError};
use crate::text::{owned, push_decimal, push_str, str_eq, string_of, decimal};
use vstd::prelude::*;

verus! {

/// How far an operation's mutation has gone.
#[derive(PartialEq, Eq, Structural, Clone, Copy, Debug)]
pub enum OperationPhase {
    Preparing,
    MutationInFlight,
    ResponseReceived,
}

/// The progress of one operation, which the scheduler consults when it
/// has to stop the operation.
#[derive(Debug)]
pub struct OperationProgress {
    pub phase: OperationPhase,
}

impl OperationProgress {
    /// An operation still preparing its mutation.
    pub fn new() -> (p: Self)
        ensures
            p.phase == OperationPhase::Preparing,
    {
        OperationProgress { phase: OperationPhase::Preparing }
    }

    /// The mutation request is being sent.
    pub fn mark_mutation_in_flight(&mut self)
        ensures
            final(self).phase == OperationPhase::MutationInFlight,
    {
        self.phase = OperationPhase::MutationInFlight;
    }

    /// The mutation's response arrived.
    pub fn mark_response_received(&mut self)
        ensures
            final(self).phase == OperationPhase::ResponseReceived,
    {
        self.phase = OperationPhase::ResponseReceived;
    }

    /// Once a mutation has been sent it may have committed, whether or not
    /// its result was seen.
    pub fn mutation_may_have_committed(&self) -> (r: bool)
        ensures
            r == (self.phase != OperationPhase::Preparing),
    {
        self.phase != OperationPhase::Preparing
    }
}

/// A scheduled operation as its supervisor tracks it.
#[derive(Debug)]
pub struct RunningOperation {
    pub target: Option<(u128, u128)>,
    pub index: usize,
    pub operation_id: String,
    pub kind: OperationKind,
    pub project_id: u128,
    pub task_id: Option<u128>,
    pub progress: OperationProgress,
    pub credential_refresh_interrupted: bool,
}

impl RunningOperation {
    /// Starts tracking an operation on `target` (its project and task).
    pub fn new(target: Option<(u128, u128)>, index: usize, operation_id: String, kind: OperationKind, project_id: u128, task_id: Option<u128>) -> (r: Self)
        ensures
            r.target == target,
            r.index == index,
            r.operation_id@ == operation_id@,
            r.kind == kind,
            r.project_id == project_id,
            r.task_id == task_id,
            r.progress.phase == OperationPhase::Preparing,
            !r.credential_refresh_interrupted,
    {
        RunningOperation {
            target,
            index,
            operation_id,
            kind,
            project_id,
            task_id,
            progress: OperationProgress::new(),
            credential_refresh_interrupted: false,
        }
    }

    /// On a signal: an operation whose credential refresh is running or may
    /// have rotated the session is marked and must be cancelled. Returns
    /// whether to cancel it.
    pub fn observe_signal(&mut self, refresh_active: bool) -> (cancel: bool)
        ensures
            cancel == refresh_active,
            final(self).credential_refresh_interrupted == (old(self).credential_refresh_interrupted || refresh_active),
            final(self).progress == old(self).progress,
            final(self).index == old(self).index,
            final(self).target == old(self).target,
    {
        if refresh_active {
            self.credential_refresh_interrupted = true;
        }
        refresh_active
    }

    /// The outcome of an operation whose worker finished with `outcome`: a
    /// signal that interrupted a credential refresh overrides it.
    /// `refresh_active` says whether the refresh is still running or may
    /// have rotated the session.
    pub fn finalize_outcome(self, outcome: OperationOutcome, refresh_active: bool) -> (o: OperationOutcome)
        ensures
            !self.credential_refresh_interrupted ==> o == outcome,
            self.credential_refresh_interrupted ==> o.status == OutcomeStatus::Interrupted
                && o.index == self.index && o.operation_id@ == self.operation_id@ && o.kind == self.kind
                && o.project_id == Some(self.project_id) && o.task_id == self.task_id
                && o.fatal_exit_code == Some(130i32)
                && (refresh_active ==> error_code(o) == Some("session_outcome_ambiguous"@))
                && (!refresh_active ==> o.error is None),
    {
        if !self.credential_refresh_interrupted {
            return outcome;
        }
        if refresh_active {
            return OperationOutcome::session_ambiguous_interrupted_parts(self.index, self.operation_id, self.kind, Some(self.project_id), self.task_id);
        }
        OperationOutcome::interrupted_parts(self.index, self.operation_id, self.kind, Some(self.project_id), self.task_id)
    }

    /// The outcome of an operation stopped by a second signal: ambiguous
    /// once its mutation may have committed, session-ambiguous when its
    /// interrupted credential refresh may have rotated the session, and a
    /// plain interruption otherwise.
    pub fn forced_outcome(self, refresh_active: bool) -> (o: OperationOutcome)
        ensures
            o.status == OutcomeStatus::Interrupted,
            o.index == self.index,
            o.operation_id@ == self.operation_id@,
            o.kind == self.kind,
            o.project_id == Some(self.project_id),
            o.task_id == self.task_id,
            o.fatal_exit_code == Some(130i32),
            error_code(o) == (if self.credential_refresh_interrupted {
                if refresh_active { Some("session_outcome_ambiguous"@) } else { None }
            } else if self.progress.phase != OperationPhase::Preparing {
                Some("outcome_ambiguous"@)
            } else {
                None
            }),
    {
        if self.credential_refresh_interrupted {
            if refresh_active {
                return OperationOutcome::session_ambiguous_interrupted_parts(self.index, self.operation_id, self.kind, Some(self.project_id), self.task_id);
            }
            return OperationOutcome::interrupted_parts(self.index, self.operation_id, self.kind, Some(self.project_id), self.task_id);
        }
        if self.progress.mutation_may_have_committed() {
            OperationOutcome::ambiguous_interrupted_parts(self.index, self.operation_id, self.kind, Some(self.project_id), self.task_id)
        } else {
            OperationOutcome::interrupted_parts(self.index, self.operation_id, self.kind, Some(self.project_id), self.task_id)
        }
    }

    /// The outcome of an operation whose worker ended without an outcome.
    pub fn join_failure_outcome(self, refresh_active: bool) -> (o: OperationOutcome)
        ensures
            o.index == self.index,
            o.operation_id@ == self.operation_id@,
            o.project_id == Some(self.project_id),
            o.task_id == self.task_id,
            self.credential_refresh_interrupted ==> o.status == OutcomeStatus::Interrupted,
            !self.credential_refresh_interrupted ==> o.status == OutcomeStatus::Failed
                && error_code(o) == Some("unexpected"@) && o.fatal_exit_code is None,
    {
        if self.credential_refresh_interrupted {
            return self.forced_outcome(refresh_active);
        }
        OperationOutcome::failed_runtime_parts(
            self.index,
            self.operation_id,
            self.kind,
            Some(self.project_id),
            self.task_id,
            PublicError::unexpected(owned("batch operation worker did not complete")),
        )
    }
}

/// A pending batch item as the scheduler sees it: an outcome known without
/// running anything, or a mutation on an optional task target.
#[derive(Debug)]
pub enum PendingItem {
    Immediate,
    Mutation(Option<(u128, u128)>),
}

/// Whether an item may start while `active` targets are busy.
pub open spec fn schedulable(item: PendingItem, active: Seq<(u128, u128)>) -> bool {
    match item {
        PendingItem::Immediate => true,
        PendingItem::Mutation(None) => true,
        PendingItem::Mutation(Some(t)) => !active.contains(t),
    }
}

/// `r` is the first item of `pending` that can start while `active`
/// targets are busy, or none can.
pub open spec fn is_first_schedulable(pending: Seq<PendingItem>, active: Seq<(u128, u128)>, r: Option<usize>) -> bool {
    match r {
        Some(i) => i < pending.len() && schedulable(pending[i as int], active)
            && forall|j: int| 0 <= j < i ==> !schedulable(#[trigger] pending[j], active),
        None => forall|j: int| 0 <= j < pending.len() ==> !schedulable(#[trigger] pending[j], active),
    }
}

/// The first pending item that can start now: immediate outcomes always,
/// mutations only when no running mutation holds their task.
pub fn next_schedulable(pending: &Vec<PendingItem>, active_targets: &Vec<(u128, u128)>) -> (r: Option<usize>)
    ensures
        is_first_schedulable(pending@, active_targets@, r),
{
    let mut i: usize = 0;
    while i < pending.len()
        invariant
            i <= pending@.len(),
            forall|j: int| 0 <= j < i ==> !schedulable(#[trigger] pending@[j], active_targets@),
        decreases pending@.len() - i,
    {
        let ok = match &pending[i] {
            PendingItem::Immediate => true,
            PendingItem::Mutation(None) => true,
            PendingItem::Mutation(Some(t)) => !target_active(active_targets, *t),
        };
        if ok {
            return Some(i);
        }
        i += 1;
    }
    None
}

/// Whether `target` is among `active`.
pub fn target_active(active: &Vec<(u128, u128)>, target: (u128, u128)) -> (r: bool)
    ensures
        r == active@.contains(target),
{
    let mut i: usize = 0;
    while i < active.len()
        invariant
            i <= active@.len(),
            forall|j: int| 0 <= j < i ==> active@[j] != target,
        decreases active@.len() - i,
    {
        if active[i].0 == target.0 && active[i].1 == target.1 {
            assert(active@[i as int] == target);
            return true;
        }
        i += 1;
    }
    false
}


/// The scheduler's bookkeeping over a batch run: busy task targets,
/// counters, and what the run has learned that decides how it ends.
#[derive(Debug)]
pub struct SchedulerState {
    pub active_targets: Vec<(u128, u128)>,
    pub counters: OutcomeCounters,
    pub stop_scheduling: bool,
    pub interrupted: bool,
    pub forced: bool,
    pub ambiguous_interruption: bool,
    pub session_ambiguous_interruption: bool,
    pub first_output_error: Option<CliError>,
    pub signal_error: Option<CliError>,
    pub fatal_exit_code: Option<i32>,
    pub checkpoint_io_failed: bool,
    /// Items taken from the pending queue so far.
    pub taken: usize,
    /// Operations started and not yet accounted for.
    pub in_flight: usize,
}

/// `a` without the occurrences of `t`, as a set.
pub open spec fn removed(a: Seq<(u128, u128)>, t: (u128, u128), x: (u128, u128)) -> bool {
    a.contains(x) && x != t
}

/// Copies `active` without `target`.
pub fn without_target(active: &Vec<(u128, u128)>, target: (u128, u128)) -> (r: Vec<(u128, u128)>)
    ensures
        forall|x: (u128, u128)| #[trigger] r@.contains(x) == removed(active@, target, x),
{
    let mut r: Vec<(u128, u128)> = Vec::new();
    let mut i: usize = 0;
    while i < active.len()
        invariant
            i <= active@.len(),
            forall|x: (u128, u128)| #[trigger] r@.contains(x) == (active@.subrange(0, i as int).contains(x) && x != target),
        decreases active@.len() - i,
    {
        let a = active[i];
        let ghost before = r@;
        if !(a.0 == target.0 && a.1 == target.1) {
            r.push(a);
        }
        assert forall|x: (u128, u128)| #[trigger] r@.contains(x) == (active@.subrange(0, i + 1).contains(x) && x != target) by {
            let p = active@.subrange(0, i as int);
            let q = active@.subrange(0, i + 1);
            assert(q == p.push(a));
            if p.contains(x) {
                let j = choose|j: int| 0 <= j < p.len() && p[j] == x;
                assert(q[j] == x);
            }
            if q.contains(x) {
                let j = choose|j: int| 0 <= j < q.len() && q[j] == x;
                if j < i {
                    assert(p[j] == x);
                }
            }
            if before.contains(x) {
                let j = choose|j: int| 0 <= j < before.len() && before[j] == x;
                assert(r@[j] == x);
            }
            if r@.contains(x) {
                let j = choose|j: int| 0 <= j < r@.len() && r@[j] == x;
                if j < before.len() {
                    assert(before[j] == x);
                }
            }
            if x == a && a != target {
                assert(r@[r@.len() - 1] == x);
                assert(q[i as int] == x);
            }
        }
        i += 1;
    }
    assert(active@.subrange(0, active@.len() as int) =~= active@);
    r
}

/// Recording `outcome` for an item on `target` took the scheduler from
/// `before` to `after` and decided `stop`: the target is freed, the outcome is
/// counted, its exit code and error are folded in, the first output error
/// is kept, and scheduling stops on a fatal code, an interruption, an
/// output failure, or a failure without `continue_on_error`.
pub open spec fn records_outcome(
    before: SchedulerState,
    after: SchedulerState,
    target: Option<(u128, u128)>,
    outcome: OperationOutcome,
    continue_on_error: bool,
    emitted: Result<(), CliError>,
    stop: bool,
) -> bool {
    &&& forall|x: (u128, u128)| #[trigger] after.active_targets@.contains(x) == match target {
        Some(t) => removed(before.active_targets@, t, x),
        None => before.active_targets@.contains(x),
    }
    &&& after.counters == counted(before.counters, outcome.status)
    &&& after.fatal_exit_code == spec_merge_fatal(before.fatal_exit_code, outcome.fatal_exit_code)
    &&& after.checkpoint_io_failed == (before.checkpoint_io_failed || error_code(outcome) == Some("checkpoint_io"@))
    &&& after.session_ambiguous_interruption == (before.session_ambiguous_interruption
        || error_code(outcome) == Some("session_outcome_ambiguous"@))
    &&& after.ambiguous_interruption == (before.ambiguous_interruption
        || error_code(outcome) == Some("outcome_ambiguous"@)
        || error_code(outcome) == Some("session_outcome_ambiguous"@))
    &&& after.interrupted == (before.interrupted || outcome.status == OutcomeStatus::Interrupted)
    &&& after.first_output_error == (if before.first_output_error is Some {
        before.first_output_error
    } else {
        match emitted {
            Ok(_) => None,
            Err(e) => Some(e),
        }
    })
    &&& after.forced == before.forced
    &&& after.stop_scheduling == before.stop_scheduling
    &&& after.signal_error == before.signal_error
    &&& stop == (outcome.fatal_exit_code is Some || outcome.status == OutcomeStatus::Interrupted || emitted is Err
        || (outcome.status == OutcomeStatus::Failed && !continue_on_error))
}

/// One pass of the scheduling loop, as [`SchedulerState::schedule_next`] makes it.
pub open spec fn schedule_next_ok(before: SchedulerState, after: SchedulerState, jobs: usize, signal_raised: bool, pending: Seq<PendingItem>, r: Option<usize>) -> bool {
    &&& (!(!before.stop_scheduling && !before.interrupted && before.in_flight < jobs) ==> r is None
            && after == before)
    &&& ((!before.stop_scheduling && !before.interrupted && before.in_flight < jobs) && signal_raised
            ==> r is None && after == (SchedulerState { interrupted: true, stop_scheduling: true, ..before }))
    &&& ((!before.stop_scheduling && !before.interrupted && before.in_flight < jobs) && !signal_raised
            ==> after == before && is_first_schedulable(pending, before.active_targets@, r))
}

/// Starting a taken mutation on `target`.
pub open spec fn start_operation_ok(before: SchedulerState, after: SchedulerState, target: Option<(u128, u128)>) -> bool {
    &&& (after.taken == before.taken + 1)
    &&& (after.in_flight == before.in_flight + 1)
    &&& (forall|x: (u128, u128)| #[trigger] after.active_targets@.contains(x) == (before.active_targets@.contains(x)
            || target == Some(x)))
    &&& (after.counters == before.counters)
    &&& (after.stop_scheduling == before.stop_scheduling)
    &&& (after.interrupted == before.interrupted)
    &&& (after.forced == before.forced)
    &&& (after.ambiguous_interruption == before.ambiguous_interruption)
    &&& (after.session_ambiguous_interruption == before.session_ambiguous_interruption)
    &&& (after.first_output_error == before.first_output_error)
    &&& (after.signal_error == before.signal_error)
    &&& (after.fatal_exit_code == before.fatal_exit_code)
    &&& (after.checkpoint_io_failed == before.checkpoint_io_failed)
    &&& (before.accounted() ==> after.accounted())
}

/// Recording the outcome of a taken item that needed no run.
pub open spec fn record_immediate_ok(before: SchedulerState, after: SchedulerState, outcome: OperationOutcome, continue_on_error: bool, emitted: Result<(), CliError>, stop: bool) -> bool {
    &&& (records_outcome(before, after, None, outcome, continue_on_error, emitted, stop))
    &&& (after.taken == before.taken + 1)
    &&& (after.in_flight == before.in_flight)
    &&& (before.accounted() ==> after.accounted())
}

/// Recording the outcome of a running operation.
pub open spec fn record_worker_ok(before: SchedulerState, after: SchedulerState, target: Option<(u128, u128)>, outcome: OperationOutcome, continue_on_error: bool, emitted: Result<(), CliError>, stop: bool) -> bool {
    &&& (records_outcome(before, after, target, outcome, continue_on_error, emitted, stop))
    &&& (after.taken == before.taken)
    &&& (after.in_flight == before.in_flight - 1)
    &&& (before.accounted() ==> after.accounted())
}

/// Accounting for a worker that ended with no operation on record.
pub open spec fn lost_worker_ok(before: SchedulerState, after: SchedulerState) -> bool {
    &&& (after.taken == before.taken)
    &&& (after.in_flight == before.in_flight - 1)
    &&& (before.accounted() ==> after.accounted())
    &&& (after.counters == counted(before.counters, OutcomeStatus::Failed))
    &&& (after.fatal_exit_code == (if before.fatal_exit_code is Some { before.fatal_exit_code } else { Some(1i32) }))
    &&& (after.active_targets@ == before.active_targets@)
    &&& (after.interrupted == before.interrupted)
    &&& (after.first_output_error == before.first_output_error)
    &&& (after.stop_scheduling == before.stop_scheduling)
    &&& (after.forced == before.forced)
    &&& (after.ambiguous_interruption == before.ambiguous_interruption)
    &&& (after.session_ambiguous_interruption == before.session_ambiguous_interruption)
    &&& (after.signal_error == before.signal_error)
    &&& (after.checkpoint_io_failed == before.checkpoint_io_failed)
}

impl SchedulerState {
    /// The state at the start of a run; `interrupted` when a signal
    /// arrived before scheduling began.
    pub fn new(interrupted: bool) -> (s: Self)
        ensures
            s.active_targets@ == Seq::<(u128, u128)>::empty(),
            spec_processed(s.counters) == 0,
            s.counters.failed == 0,
            !s.stop_scheduling,
            s.interrupted == interrupted,
            !s.forced,
            !s.ambiguous_interruption,
            !s.session_ambiguous_interruption,
            s.first_output_error is None,
            s.signal_error is None,
            s.fatal_exit_code is None,
            !s.checkpoint_io_failed,
            s.taken == 0,
            s.in_flight == 0,
            s.accounted(),
    {
        SchedulerState {
            active_targets: Vec::new(),
            counters: OutcomeCounters::new(),
            stop_scheduling: false,
            interrupted,
            forced: false,
            ambiguous_interruption: false,
            session_ambiguous_interruption: false,
            first_output_error: None,
            signal_error: None,
            fatal_exit_code: None,
            checkpoint_io_failed: false,
            taken: 0,
            in_flight: 0,
        }
    }

    /// Every item taken from the queue is either counted in exactly one
    /// outcome or still running.
    pub open spec fn accounted(&self) -> bool {
        self.taken == spec_processed(self.counters) + self.in_flight
    }

    /// Whether another item may start: scheduling has not stopped, no
    /// interruption arrived, and fewer than `jobs` operations run.
    pub fn may_schedule(&self, jobs: usize) -> (r: bool)
        ensures
            r == (!self.stop_scheduling && !self.interrupted && self.in_flight < jobs),
    {
        !self.stop_scheduling && !self.interrupted && self.in_flight < jobs
    }

    /// One pass of the scheduling loop: when another item may start, an
    /// interruption signal stops scheduling, and otherwise the first
    /// pending item that can start now is chosen. Nothing changes when no
    /// item may start.
    pub fn schedule_next(&mut self, jobs: usize, signal_raised: bool, pending: &Vec<PendingItem>) -> (r: Option<usize>)
        ensures
            schedule_next_ok(*old(self), *final(self), jobs, signal_raised, pending@, r),
    {
        if !self.may_schedule(jobs) {
            return None;
        }
        if signal_raised {
            self.interrupted = true;
            self.stop_scheduling = true;
            return None;
        }
        next_schedulable(pending, &self.active_targets)
    }

    /// Starts a taken mutation: it runs until its outcome is recorded, and
    /// its task target, if any, is busy meanwhile.
    pub fn start_operation(&mut self, target: Option<(u128, u128)>)
        requires
            old(self).taken < usize::MAX,
            old(self).in_flight < usize::MAX,
        ensures
            start_operation_ok(*old(self), *final(self), target),
    {
        if let Some(t) = target {
            self.activate(t);
        }
        self.taken = self.taken + 1;
        self.in_flight = self.in_flight + 1;
    }

    /// Records the outcome of a taken item that needed no run.
    pub fn record_immediate_outcome(&mut self, outcome: &OperationOutcome, continue_on_error: bool, emitted: Result<(), CliError>) -> (stop: bool)
        requires
            spec_processed(old(self).counters) < usize::MAX,
            old(self).taken < usize::MAX,
        ensures
            record_immediate_ok(*old(self), *final(self), *outcome, continue_on_error, emitted, stop),
    {
        self.taken = self.taken + 1;
        self.record_scheduled_outcome(None, outcome, continue_on_error, emitted)
    }

    /// Records the outcome of a running operation, which stops running.
    pub fn record_worker_outcome(&mut self, target: Option<(u128, u128)>, outcome: &OperationOutcome, continue_on_error: bool, emitted: Result<(), CliError>) -> (stop: bool)
        requires
            spec_processed(old(self).counters) < usize::MAX,
            old(self).in_flight > 0,
        ensures
            record_worker_ok(*old(self), *final(self), target, *outcome, continue_on_error, emitted, stop),
    {
        self.in_flight = self.in_flight - 1;
        self.record_scheduled_outcome(target, outcome, continue_on_error, emitted)
    }

    /// Marks a task target busy while its mutation runs.
    pub fn activate(&mut self, target: (u128, u128))
        ensures
            forall|x: (u128, u128)| #[trigger] final(self).active_targets@.contains(x) == (old(self).active_targets@.contains(x) || x == target),
            *final(self) == (SchedulerState { active_targets: final(self).active_targets, ..*old(self) }),
    {
        if !target_active(&self.active_targets, target) {
            let ghost before = self.active_targets@;
            self.active_targets.push(target);
            assert forall|x: (u128, u128)| #[trigger] self.active_targets@.contains(x) == (before.contains(x) || x == target) by {
                if before.contains(x) {
                    let j = choose|j: int| 0 <= j < before.len() && before[j] == x;
                    assert(self.active_targets@[j] == x);
                }
                if self.active_targets@.contains(x) {
                    let j = choose|j: int| 0 <= j < self.active_targets@.len() && self.active_targets@[j] == x;
                    if j < before.len() {
                        assert(before[j] == x);
                    }
                }
                if x == target {
                    assert(self.active_targets@[before.len() as int] == x);
                }
            }
        }
    }

    /// Accounts for one finished operation: frees its target, counts it,
    /// folds in its exit code and error, and keeps the first output error
    /// (`emitted` is the result of reporting the outcome). Returns whether
    /// scheduling must stop.
    pub fn record_scheduled_outcome(&mut self, target: Option<(u128, u128)>, outcome: &OperationOutcome, continue_on_error: bool, emitted: Result<(), CliError>) -> (stop: bool)
        requires
            spec_processed(old(self).counters) < usize::MAX,
        ensures
            records_outcome(*old(self), *final(self), target, *outcome, continue_on_error, emitted, stop),
            final(self).taken == old(self).taken,
            final(self).in_flight == old(self).in_flight,
    {
        if let Some(t) = target {
            self.active_targets = without_target(&self.active_targets, t);
        }
        self.counters.record(outcome);
        self.fatal_exit_code = merge_fatal_exit_code(self.fatal_exit_code, outcome.fatal_exit_code);
        let (io, session, ambiguous) = match &outcome.error {
            Some(e) => {
                let c = e.code.as_str();
                (str_eq(c, "checkpoint_io"), str_eq(c, "session_outcome_ambiguous"),
                    str_eq(c, "outcome_ambiguous") || str_eq(c, "session_outcome_ambiguous"))
            },
            None => (false, false, false),
        };
        self.checkpoint_io_failed = self.checkpoint_io_failed || io;
        self.session_ambiguous_interruption = self.session_ambiguous_interruption || session;
        self.ambiguous_interruption = self.ambiguous_interruption || ambiguous;
        let mut should_stop = outcome.fatal_exit_code.is_some();
        if outcome.status == OutcomeStatus::Interrupted {
            self.interrupted = true;
            should_stop = true;
        }
        if let Err(error) = emitted {
            if self.first_output_error.is_none() {
                self.first_output_error = Some(error);
            }
            should_stop = true;
        }
        should_stop || (outcome.status == OutcomeStatus::Failed && !continue_on_error)
    }

    /// Accounts for a worker that ended with no operation on record: it
    /// counts as a failure and the batch exits 1 unless a code is set.
    pub fn record_lost_worker(&mut self)
        requires
            spec_processed(old(self).counters) < usize::MAX,
            old(self).in_flight > 0,
        ensures
            lost_worker_ok(*old(self), *final(self)),
    {
        self.in_flight = self.in_flight - 1;
        self.counters.failed = self.counters.failed + 1;
        if self.fatal_exit_code.is_none() {
            self.fatal_exit_code = Some(1);
        }
    }

    /// Whether the summary is reported: not after an output failure.
    pub fn should_emit_summary(&self) -> (r: bool)
        ensures
            r == self.first_output_error is None,
    {
        self.first_output_error.is_none()
    }

    /// The totals of a run over `total` operations.
    pub fn summary(&self, total: usize) -> (s: BatchSummary)
        requires
            spec_processed(self.counters) <= usize::MAX,
        ensures
            s.total == total,
            s.succeeded == self.counters.succeeded,
            s.failed == self.counters.failed,
            s.skipped == self.counters.skipped,
            s.planned == self.counters.planned,
            s.interrupted_count == self.counters.interrupted,
            s.interrupted == self.interrupted,
            s.not_run == (if total >= spec_processed(self.counters) { total - spec_processed(self.counters) } else { 0 }),
    {
        BatchSummary {
            total,
            succeeded: self.counters.succeeded,
            failed: self.counters.failed,
            skipped: self.counters.skipped,
            planned: self.counters.planned,
            not_run: total.saturating_sub(self.counters.processed()),
            interrupted_count: self.counters.interrupted,
            interrupted: self.interrupted,
        }
    }

    /// How the batch ends once every operation is accounted for and the
    /// summary was reported (`summary_emitted`): an output or signal
    /// failure first, then an interruption (with what it may have left
    /// half-done), then a checkpoint failure, then failed operations.
    pub fn final_result(self, continue_on_error: bool, checkpoint_exists: bool, summary_emitted: Result<(), CliError>) -> (r: Result<(), CliError>)
        requires
            self.counters.succeeded + self.counters.skipped + self.counters.planned <= usize::MAX,
        ensures
            match self.first_output_error {
                Some(e) => r == Err::<(), CliError>(e),
                None => match summary_emitted {
                    Err(e) => r == Err::<(), CliError>(e),
                    Ok(_) => match self.signal_error {
                        Some(e) => r == Err::<(), CliError>(e),
                        None => if self.interrupted {
                            r matches Err(e) && e.exit_code == 130 && if self.session_ambiguous_interruption {
                                e.code@ == "session_outcome_ambiguous"@
                                && e.message@ == "batch interruption stopped waiting while credentials were rotating before durable local persistence was confirmed"@
                                    + "; the server may have rotated the session without a durable local replacement, so run 'sealtask auth login' if authentication no longer works"@
                            } else {
                                e.code@ == (if self.ambiguous_interruption { "outcome_ambiguous"@ } else { "interrupted"@ })
                                && e.message@ == (if self.forced {
                                    spec_forced_interruption_message(checkpoint_exists, self.ambiguous_interruption)
                                } else {
                                    "batch interrupted; in-flight operations reached a durable boundary and can be resumed"@
                                })
                            }
                        } else if self.fatal_exit_code == Some(4i32) {
                            r matches Err(e) && e.exit_code == 4 && if self.checkpoint_io_failed {
                                e.code@ == "checkpoint_io"@ && e.message@ == "batch stopped because checkpoint durability could not be guaranteed"@
                            } else {
                                e.code@ == "checkpoint_conflict"@ && e.message@ == "batch stopped because checkpoint state could not be safely continued"@
                            }
                        } else if self.counters.failed > 0 {
                            r matches Err(e) && e.exit_code == 1 && if continue_on_error
                                && self.counters.succeeded + self.counters.skipped + self.counters.planned > 0 {
                                e.code@ == "batch_partial_failure"@ && e.message@ == decimal(self.counters.failed as nat)
                                    + " batch operation(s) failed and "@
                                    + decimal((self.counters.succeeded + self.counters.skipped + self.counters.planned) as nat)
                                    + " completed"@
                            } else {
                                e.code@ == "validation"@ && e.message@ == decimal(self.counters.failed as nat) + " batch operation(s) failed"@
                            }
                        } else {
                            r is Ok
                        },
                    },
                },
            },
    {
        if let Some(e) = self.first_output_error {
            return Err(e);
        }
        summary_emitted?;
        if let Some(e) = self.signal_error {
            return Err(e);
        }
        if self.interrupted {
            if self.session_ambiguous_interruption {
                return Err(batch_session_ambiguous_interruption(
                    "batch interruption stopped waiting while credentials were rotating before durable local persistence was confirmed",
                ));
            }
            let message = if self.forced {
                forced_interruption_message(checkpoint_exists, self.ambiguous_interruption)
            } else {
                "batch interrupted; in-flight operations reached a durable boundary and can be resumed"
            };
            return Err(if self.ambiguous_interruption {
                CliError::interrupted_ambiguous(owned(message))
            } else {
                CliError::interrupted(owned(message))
            });
        }
        if self.fatal_exit_code == Some(4) {
            return Err(if self.checkpoint_io_failed {
                CliError::checkpoint_io(owned("batch stopped because checkpoint durability could not be guaranteed"))
            } else {
                CliError::checkpoint_conflict(owned("batch stopped because checkpoint state could not be safely continued"))
            });
        }
        if self.counters.failed > 0 {
            let completed = self.counters.succeeded + self.counters.skipped + self.counters.planned;
            if continue_on_error && completed > 0 {
                let mut m: Vec<char> = Vec::new();
                push_decimal(&mut m, self.counters.failed as u64);
                push_str(&mut m, " batch operation(s) failed and ");
                push_decimal(&mut m, completed as u64);
                push_str(&mut m, " completed");
                return Err(CliError::batch_partial_failure(string_of(&m)));
            }
            let mut m: Vec<char> = Vec::new();
            push_decimal(&mut m, self.counters.failed as u64);
            push_str(&mut m, " batch operation(s) failed");
            return Err(CliError::from_public(PublicError::validation(string_of(&m))));
        }
        Ok(())
    }
}

/// Once nothing runs any more, every item taken from the queue has been
/// counted in exactly one outcome, so the operations reported as not run
/// are exactly those never taken.
pub proof fn lemma_settled_scheduler_counts_each_item_once(s: SchedulerState, total: usize)
    requires
        s.accounted(),
        s.in_flight == 0,
        s.taken <= total,
    ensures
        spec_processed(s.counters) == s.taken,
        total - spec_processed(s.counters) == total - s.taken,
{
}

/// One call the scheduling loop makes on its state.
pub enum SchedulerStep {
    /// A pass of the loop over `pending`, which chose `chosen`.
    ScheduleNext { jobs: usize, signal_raised: bool, pending: Seq<PendingItem>, chosen: Option<usize> },
    /// The chosen mutation starts.
    Start(Option<(u128, u128)>),
    /// The chosen item's outcome is known without running anything.
    RecordImmediate { outcome: OperationOutcome, continue_on_error: bool, emitted: Result<(), CliError>, stop: bool },
    /// A running operation finished.
    RecordWorker { target: Option<(u128, u128)>, outcome: OperationOutcome, continue_on_error: bool, emitted: Result<(), CliError>, stop: bool },
    /// A worker ended with no operation on record.
    LostWorker,
}

/// The call `step` took the scheduler from `before` to `after`, as the
/// methods' contracts say (with their preconditions).
pub open spec fn scheduler_step_ok(before: SchedulerState, step: SchedulerStep, after: SchedulerState) -> bool {
    match step {
        SchedulerStep::ScheduleNext { jobs, signal_raised, pending, chosen } =>
            schedule_next_ok(before, after, jobs, signal_raised, pending, chosen),
        SchedulerStep::Start(target) => start_operation_ok(before, after, target),
        SchedulerStep::RecordImmediate { outcome, continue_on_error, emitted, stop } =>
            record_immediate_ok(before, after, outcome, continue_on_error, emitted, stop),
        SchedulerStep::RecordWorker { target, outcome, continue_on_error, emitted, stop } =>
            before.in_flight > 0 && record_worker_ok(before, after, target, outcome, continue_on_error, emitted, stop),
        SchedulerStep::LostWorker => before.in_flight > 0 && lost_worker_ok(before, after),
    }
}

/// The item that a step takes from the queue, as the loop does it: a
/// mutation starts, and an immediate outcome is recorded, only right after
/// a pass of the loop with the job limit `jobs` chose it.
pub open spec fn taken_as_chosen(steps: Seq<SchedulerStep>, i: int, jobs: usize) -> bool {
    match steps[i] {
        SchedulerStep::Start(target) => i > 0 && (steps[i - 1] matches SchedulerStep::ScheduleNext { jobs: j, pending, chosen: Some(c), .. }
            && j == jobs && c < pending.len() && pending[c as int] == PendingItem::Mutation(target)),
        SchedulerStep::RecordImmediate { .. } => i > 0 && (steps[i - 1] matches SchedulerStep::ScheduleNext { jobs: j, pending, chosen: Some(c), .. }
            && j == jobs && c < pending.len() && pending[c as int] == PendingItem::Immediate),
        _ => true,
    }
}

/// A run of the scheduling loop with job limit `jobs`: each step is one
/// call as its contract says, and items are taken only as chosen.
pub open spec fn scheduler_run(states: Seq<SchedulerState>, steps: Seq<SchedulerStep>, jobs: usize) -> bool {
    &&& states.len() == steps.len() + 1
    &&& forall|i: int| 0 <= i < steps.len() ==> scheduler_step_ok(#[trigger] states[i], steps[i], states[i + 1])
    &&& forall|i: int| 0 <= i < steps.len() ==> #[trigger] taken_as_chosen(steps, i, jobs)
}

proof fn lemma_scheduler_prefix(states: Seq<SchedulerState>, steps: Seq<SchedulerStep>, jobs: usize, k: int)
    requires
        scheduler_run(states, steps, jobs),
        states[0].accounted(),
        states[0].in_flight == 0,
        0 <= k < states.len(),
    ensures
        states[k].accounted(),
        states[k].in_flight <= jobs,
    decreases k,
{
    if k > 0 {
        lemma_scheduler_prefix(states, steps, jobs, k - 1);
        let i = k - 1;
        assert(scheduler_step_ok(states[i], steps[i], states[k]));
        assert(taken_as_chosen(steps, i, jobs));
        if steps[i] is Start {
            assert(scheduler_step_ok(states[i - 1], steps[i - 1], states[i]));
        }
    }
}

/// Over a whole run of the scheduling loop with job limit `jobs`: never
/// more than `jobs` operations run at once; a mutation starts only on a
/// task no running mutation holds, so no two running operations share a
/// task; and every item taken from the queue is counted in exactly one
/// outcome or is still running.
pub proof fn lemma_scheduling_loop_is_safe(states: Seq<SchedulerState>, steps: Seq<SchedulerStep>, jobs: usize)
    requires
        scheduler_run(states, steps, jobs),
        states[0].accounted(),
        states[0].in_flight == 0,
    ensures
        forall|k: int| 0 <= k < states.len() ==> (#[trigger] states[k]).in_flight <= jobs && states[k].accounted(),
        forall|k: int| 0 <= k < steps.len() ==> (#[trigger] steps[k] matches SchedulerStep::Start(Some(t))
            ==> !states[k].active_targets@.contains(t) && states[k].in_flight < jobs),
{
    assert forall|k: int| 0 <= k < states.len() implies (#[trigger] states[k]).in_flight <= jobs && states[k].accounted() by {
        lemma_scheduler_prefix(states, steps, jobs, k);
    }
    assert forall|k: int| 0 <= k < steps.len() implies (#[trigger] steps[k] matches SchedulerStep::Start(Some(t))
        ==> !states[k].active_targets@.contains(t) && states[k].in_flight < jobs) by {
        assert(taken_as_chosen(steps, k, jobs));
        if steps[k] is Start {
            assert(scheduler_step_ok(states[k - 1], steps[k - 1], states[k]));
        }
    }
}

/// What the service prepared for a mutation: the revision an update
/// expects, the commitment to the exact change, and whether it changes
/// anything.
#[derive(Debug)]
pub struct TaskMutationPlan {
    pub expected_updated_at: Option<i128>,
    pub change_commitment: String,
    pub would_change: bool,
}

/// Whether a resumed update still has to run.
#[derive(PartialEq, Eq, Structural, Clone, Copy, Debug)]
pub enum ResumeDecision {
    AlreadyApplied,
    Execute,
}

/// Checks a resumed update's fresh plan against what the checkpoint
/// recorded: the same original revision and the same change commitment,
/// or the update is refused. A plan that changes nothing then means the
/// update was already applied.
pub fn ensure_resume_plan_matches(stored_expected_updated_at: i128, stored_change_commitment: Option<&str>, plan: &TaskMutationPlan) -> (r: Result<ResumeDecision, CliError>)
    ensures
        match plan.expected_updated_at {
            None => r matches Err(e) && e.code@ == "checkpoint_conflict"@ && e.exit_code == 4
                && e.message@ == "checkpointed task.update plan is missing its original revision"@,
            Some(current) => if current != stored_expected_updated_at {
                r matches Err(e) && e.code@ == "checkpoint_conflict"@ && e.exit_code == 4
                    && e.message@ == "cannot safely resume task.update because its original revision is no longer current"@
            } else {
                match stored_change_commitment {
                    None => r matches Err(e) && e.code@ == "checkpoint_conflict"@ && e.exit_code == 4
                        && e.message@ == "checkpointed task.update plan is missing its original change commitment"@,
                    Some(c) => if c@ != plan.change_commitment@ {
                        r matches Err(e) && e.code@ == "checkpoint_conflict"@ && e.exit_code == 4
                            && e.message@ == "cannot safely resume task.update because its original prepared change no longer matches"@
                    } else if plan.would_change {
                        r == Ok::<ResumeDecision, CliError>(ResumeDecision::Execute)
                    } else {
                        r == Ok::<ResumeDecision, CliError>(ResumeDecision::AlreadyApplied)
                    },
                }
            },
        },
{
    let current_revision = match plan.expected_updated_at {
        Some(r) => r,
        None => return Err(CliError::checkpoint_conflict(owned("checkpointed task.update plan is missing its original revision"))),
    };
    if current_revision != stored_expected_updated_at {
        return Err(CliError::checkpoint_conflict(owned("cannot safely resume task.update because its original revision is no longer current")));
    }
    let stored = match stored_change_commitment {
        Some(c) => c,
        None => return Err(CliError::checkpoint_conflict(owned("checkpointed task.update plan is missing its original change commitment"))),
    };
    if !str_eq(stored, plan.change_commitment.as_str()) {
        return Err(CliError::checkpoint_conflict(owned("cannot safely resume task.update because its original prepared change no longer matches")));
    }
    if !plan.would_change {
        return Ok(ResumeDecision::AlreadyApplied);
    }
    Ok(ResumeDecision::Execute)
}

/// The revision a resumed update was prepared against, which its fresh
/// preparation must still expect.
pub fn original_update_revision(kind: OperationKind, resume: &Option<StartedMetadata>) -> (r: Option<i128>)
    ensures
        r == (if kind == OperationKind::TaskUpdate && resume is Some { resume->Some_0.expected_updated_at } else { None }),
{
    if kind == OperationKind::TaskUpdate {
        match resume {
            Some(started) => started.expected_updated_at,
            None => None,
        }
    } else {
        None
    }
}

/// The task a resumed operation mutates, from what its checkpoint recorded
/// when it started: a create must not have a task yet and an update must
/// name one; `kind` is the operation's kind in the batch input.
pub fn resolved_from_metadata(kind: OperationKind, metadata: &StartedMetadata) -> (r: Result<Option<u128>, CliError>)
    ensures
        kind == OperationKind::TaskCreate ==> match metadata.task_id {
            Some(_) => r matches Err(e) && e.code@ == "checkpoint_conflict"@
                && e.message@ == "checkpoint task.create unexpectedly contains a task target"@,
            None => r == Ok::<Option<u128>, CliError>(None),
        },
        kind == OperationKind::TaskUpdate ==> match metadata.task_id {
            Some(t) => r == Ok::<Option<u128>, CliError>(Some(t)),
            None => r matches Err(e) && e.code@ == "checkpoint_conflict"@
                && e.message@ == "checkpoint task.update is missing its canonical task target"@,
        },
{
    match kind {
        OperationKind::TaskCreate => match metadata.task_id {
            Some(_) => Err(CliError::checkpoint_conflict(owned("checkpoint task.create unexpectedly contains a task target"))),
            None => Ok(None),
        },
        OperationKind::TaskUpdate => match metadata.task_id {
            Some(t) => Ok(Some(t)),
            None => Err(CliError::checkpoint_conflict(owned("checkpoint task.update is missing its canonical task target"))),
        },
    }
}

/// What happens after a plan was prepared: whether the operation was
/// already applied, and the started metadata to record when the checkpoint
/// does not already hold exactly it.
#[derive(Debug)]
pub struct PlanCheck {
    pub reconciled: bool,
    pub record_started: Option<StartedMetadata>,
}

/// Checks a prepared plan against a resumed operation's checkpoint and
/// decides the started record that pins the plan: a resumed update must
/// match its original plan; a resumed create must keep its original
/// change commitment.
pub fn reconcile_prepared_plan(kind: OperationKind, project_id: u128, task_id: Option<u128>, resume: &Option<StartedMetadata>, plan: &TaskMutationPlan) -> (r: Result<PlanCheck, CliError>)
    ensures
        match resume {
            Some(started) if kind == OperationKind::TaskUpdate && started.expected_updated_at is Some => {
                let expected = started.expected_updated_at->Some_0;
                let commitment = opt_view(started.change_commitment);
                let matches_plan = plan.expected_updated_at == Some(expected) && commitment == Some(plan.change_commitment@);
                (!matches_plan ==> (r matches Err(e) && e.code@ == "checkpoint_conflict"@ && e.exit_code == 4))
                && (matches_plan ==> (r matches Ok(c) && c.reconciled == !plan.would_change && c.record_started is None))
            },
            Some(started) if kind == OperationKind::TaskCreate && started.change_commitment is Some
                && opt_view(started.change_commitment) != Some(plan.change_commitment@) =>
                r matches Err(e) && e.code@ == "checkpoint_conflict"@ && e.exit_code == 4
                    && e.message@ == "checkpointed task.create plan no longer matches canonical input"@,
            _ => r matches Ok(c) && !c.reconciled && {
                let already = resume matches Some(started) && started.expected_updated_at == plan.expected_updated_at
                    && opt_view(started.change_commitment) == Some(plan.change_commitment@);
                (already ==> c.record_started is None)
                && (!already ==> (c.record_started matches Some(m) && m.kind == kind && m.project_id == project_id
                    && m.task_id == task_id && m.expected_updated_at == plan.expected_updated_at
                    && opt_view(m.change_commitment) == Some(plan.change_commitment@)))
            },
        },
{
    let mut reconciled = false;
    if kind == OperationKind::TaskUpdate {
        if let Some(started) = resume {
            if let Some(expected) = started.expected_updated_at {
                let stored = match &started.change_commitment {
                    Some(c) => Some(c.as_str()),
                    None => None,
                };
                match ensure_resume_plan_matches(expected, stored, plan) {
                    Ok(ResumeDecision::AlreadyApplied) => reconciled = true,
                    Ok(ResumeDecision::Execute) => {},
                    Err(e) => return Err(e),
                }
            }
        }
    }
    if kind == OperationKind::TaskCreate {
        if let Some(started) = resume {
            if let Some(stored) = &started.change_commitment {
                if !str_eq(stored.as_str(), plan.change_commitment.as_str()) {
                    return Err(CliError::checkpoint_conflict(owned("checkpointed task.create plan no longer matches canonical input")));
                }
            }
        }
    }
    let already_checkpointed = match resume {
        Some(started) => started.expected_updated_at == plan.expected_updated_at && match &started.change_commitment {
            Some(c) => str_eq(c.as_str(), plan.change_commitment.as_str()),
            None => false,
        },
        None => false,
    };
    let record_started = if already_checkpointed {
        None
    } else {
        Some(StartedMetadata {
            kind,
            project_id,
            task_id,
            expected_updated_at: plan.expected_updated_at,
            change_commitment: Some(owned(plan.change_commitment.as_str())),
        })
    };
    Ok(PlanCheck { reconciled, record_started })
}

/// What a running operation does when a signal arrives.
#[derive(PartialEq, Eq, Structural, Clone, Copy, Debug)]
pub enum InterruptAction {
    /// Stop at once: the session may already have been rotated.
    SessionAmbiguous,
    /// Cancel and wait for the running credential refresh to settle.
    AwaitCredentialRefresh,
    /// Let the mutation request that is on the wire finish.
    AwaitMutation,
    /// Cancel and stop.
    Cancel,
}

/// How a signal is handled while an operation prepares its plan or (when
/// `executing`) sends its mutation, given the state of its credential
/// refresh and of its mutation request.
pub fn interrupt_action(executing: bool, refresh_may_have_rotated: bool, refresh_in_flight: bool, mutation_request_in_flight: bool) -> (a: InterruptAction)
    ensures
        a == (if refresh_may_have_rotated {
            InterruptAction::SessionAmbiguous
        } else if refresh_in_flight {
            InterruptAction::AwaitCredentialRefresh
        } else if executing && mutation_request_in_flight {
            InterruptAction::AwaitMutation
        } else {
            InterruptAction::Cancel
        }),
{
    if refresh_may_have_rotated {
        InterruptAction::SessionAmbiguous
    } else if refresh_in_flight {
        InterruptAction::AwaitCredentialRefresh
    } else if executing && mutation_request_in_flight {
        InterruptAction::AwaitMutation
    } else {
        InterruptAction::Cancel
    }
}

} // verus!
