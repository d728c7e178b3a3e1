use crate::batch::{identifies, spec_sanitized_operation_error, OperationOutcome, OutcomeStatus};
use crate::checkpoint::OperationKind;
use crate::error::PublicError;
use crate::text::{owned, str_eq};
use vstd::prelude::*;

verus! {

/// Selectors already resolved during a batch: project selectors to project
/// identifiers, and task selectors within a project to task identifiers.
#[derive(Debug)]
pub struct ResolutionCaches {
    pub projects: Vec<(String, u128)>,
    pub tasks: Vec<(u128, String, u128)>,
}

/// The cached projects by selector text.
pub open spec fn project_entries(c: ResolutionCaches) -> Seq<(Seq<char>, u128)> {
    c.projects@.map_values(|e: (String, u128)| (e.0@, e.1))
}

/// The cached tasks by project and selector text.
pub open spec fn task_entries(c: ResolutionCaches) -> Seq<(u128, Seq<char>, u128)> {
    c.tasks@.map_values(|e: (u128, String, u128)| (e.0, e.1@, e.2))
}

/// The project cached for `selector`: the first entry recorded for it.
pub open spec fn cached_project_id(entries: Seq<(Seq<char>, u128)>, selector: Seq<char>) -> Option<u128>
    decreases entries.len(),
{
    if entries.len() == 0 {
        None
    } else if entries[0].0 == selector {
        Some(entries[0].1)
    } else {
        cached_project_id(entries.drop_first(), selector)
    }
}

/// The task cached for `selector` within `project_id`: the first entry
/// recorded for them.
pub open spec fn cached_task_id(entries: Seq<(u128, Seq<char>, u128)>, project_id: u128, selector: Seq<char>) -> Option<u128>
    decreases entries.len(),
{
    if entries.len() == 0 {
        None
    } else if entries[0].0 == project_id && entries[0].1 == selector {
        Some(entries[0].2)
    } else {
        cached_task_id(entries.drop_first(), project_id, selector)
    }
}

impl ResolutionCaches {
    /// Nothing resolved yet.
    pub fn new() -> (c: Self)
        ensures
            project_entries(c) == Seq::<(Seq<char>, u128)>::empty(),
            task_entries(c) == Seq::<(u128, Seq<char>, u128)>::empty(),
    {
        let c = ResolutionCaches { projects: Vec::new(), tasks: Vec::new() };
        assert(project_entries(c) =~= Seq::<(Seq<char>, u128)>::empty());
        assert(task_entries(c) =~= Seq::<(u128, Seq<char>, u128)>::empty());
        c
    }

    /// The project identifier cached for a selector.
    pub fn project(&self, selector: &str) -> (r: Option<u128>)
        ensures
            r == cached_project_id(project_entries(*self), selector@),
    {
        let ghost e = project_entries(*self);
        assert(e.subrange(0, e.len() as int) =~= e);
        let mut i: usize = 0;
        while i < self.projects.len()
            invariant
                i <= self.projects@.len(),
                e == project_entries(*self),
                cached_project_id(e, selector@) == cached_project_id(e.subrange(i as int, e.len() as int), selector@),
            decreases self.projects@.len() - i,
        {
            let ghost rest = e.subrange(i as int, e.len() as int);
            assert(rest.drop_first() =~= e.subrange(i + 1, e.len() as int));
            assert(rest[0] == e[i as int]);
            if str_eq(self.projects[i].0.as_str(), selector) {
                return Some(self.projects[i].1);
            }
            i += 1;
        }
        None
    }

    /// The task identifier cached for a selector within a project.
    pub fn task(&self, project_id: u128, selector: &str) -> (r: Option<u128>)
        ensures
            r == cached_task_id(task_entries(*self), project_id, selector@),
    {
        let ghost e = task_entries(*self);
        assert(e.subrange(0, e.len() as int) =~= e);
        let mut i: usize = 0;
        while i < self.tasks.len()
            invariant
                i <= self.tasks@.len(),
                e == task_entries(*self),
                cached_task_id(e, project_id, selector@) == cached_task_id(e.subrange(i as int, e.len() as int), project_id, selector@),
            decreases self.tasks@.len() - i,
        {
            let ghost rest = e.subrange(i as int, e.len() as int);
            assert(rest.drop_first() =~= e.subrange(i + 1, e.len() as int));
            assert(rest[0] == e[i as int]);
            if self.tasks[i].0 == project_id && str_eq(self.tasks[i].1.as_str(), selector) {
                return Some(self.tasks[i].2);
            }
            i += 1;
        }
        None
    }

    /// Remembers the project a selector resolved to.
    pub fn remember_project(&mut self, selector: &str, project_id: u128)
        ensures
            project_entries(*final(self)) == project_entries(*old(self)).push((selector@, project_id)),
            task_entries(*final(self)) == task_entries(*old(self)),
    {
        self.projects.push((owned(selector), project_id));
        assert(project_entries(*self) =~= project_entries(*old(self)).push((selector@, project_id)));
    }

    /// Remembers the task a selector resolved to within a project.
    pub fn remember_task(&mut self, project_id: u128, selector: &str, task_id: u128)
        ensures
            task_entries(*final(self)) == task_entries(*old(self)).push((project_id, selector@, task_id)),
            project_entries(*final(self)) == project_entries(*old(self)),
    {
        self.tasks.push((project_id, owned(selector), task_id));
        assert(task_entries(*self) =~= task_entries(*old(self)).push((project_id, selector@, task_id)));
    }
}

/// A batch operation waiting for its selectors to be resolved: what
/// identifies it, its project selector, and, for an update, its task
/// selector.
#[derive(Debug)]
pub struct PendingOperation {
    pub index: usize,
    pub operation_id: String,
    pub kind: OperationKind,
    pub project_selector: String,
    pub task_selector: Option<String>,
}

/// Where the resolution of one operation stands.
#[derive(Clone, Copy, Debug)]
pub enum ResolutionStage {
    Start,
    ResolvingProject,
    ResolvingTask { project_id: u128 },
    Finished,
}

/// What a lookup of the service answered: `None` when an interruption
/// signal arrived first, else the identifier or the error.
#[derive(Debug)]
pub enum ResolutionEvent {
    Begin,
    ProjectResolved(Option<Result<u128, PublicError>>),
    TaskResolved(Option<Result<u128, PublicError>>),
}

/// How an operation ends resolution: with an outcome at once, or as a
/// mutation on the resolved targets.
#[derive(Debug)]
pub enum Resolution {
    Immediate(OperationOutcome),
    Mutation { project_id: u128, task_id: Option<u128> },
}

/// What the resolver does next.
#[derive(Debug)]
pub enum ResolutionAction {
    /// Look the project selector up, or stop on a signal.
    ResolveProject,
    /// Look the task selector up within the project, or stop on a signal.
    ResolveTask { project_id: u128 },
    /// Nothing to do for this event.
    Wait,
    /// Resolution is over.
    Finish(Resolution),
}

/// The outcome of an operation whose resolution was interrupted, carrying
/// the project when it was already known.
pub open spec fn interrupted_with(o: OperationOutcome, op: PendingOperation, project_id: Option<u128>) -> bool {
    &&& identifies(o, op.index, op.operation_id@, op.kind, project_id, None)
    &&& o.status == OutcomeStatus::Interrupted
    &&& o.error is None
    &&& o.fatal_exit_code == Some(130i32)
    &&& !o.resumed
    &&& o.updated_at is None
    &&& o.task_reference is None
    &&& o.task_reference_number is None
}

/// The outcome of an operation whose selector could not be resolved.
pub open spec fn failed_with(o: OperationOutcome, op: PendingOperation, project_id: Option<u128>, error: PublicError) -> bool {
    &&& identifies(o, op.index, op.operation_id@, op.kind, project_id, None)
    &&& o.status == OutcomeStatus::Failed
    &&& (o.error matches Some(e) && e.code@ == error.code@ && e.message@ == spec_sanitized_operation_error(error.code@))
    &&& o.fatal_exit_code is None
    &&& !o.resumed
    &&& o.updated_at is None
    &&& o.task_reference is None
    &&& o.task_reference_number is None
}

/// With the project known: a creation is ready; an update is ready when
/// its task is cached, and otherwise its task is looked up.
pub open spec fn after_project(op: PendingOperation, tasks: Seq<(u128, Seq<char>, u128)>, project_id: u128, next: ResolutionStage, action: ResolutionAction) -> bool {
    match op.task_selector {
        None => next is Finished && action == ResolutionAction::Finish(Resolution::Mutation { project_id, task_id: None }),
        Some(sel) => match cached_task_id(tasks, project_id, sel@) {
            Some(t) => next is Finished && action == ResolutionAction::Finish(Resolution::Mutation { project_id, task_id: Some(t) }),
            None => next == ResolutionStage::ResolvingTask { project_id } && action == ResolutionAction::ResolveTask { project_id },
        },
    }
}

/// One step of resolving an operation's selectors: cached answers are used
/// without asking the service, fresh answers are cached, an interruption
/// or a lookup error ends the operation with its outcome, and resolved
/// targets make it a mutation.
pub open spec fn resolution_step_ok(
    s: ResolutionStage,
    op: PendingOperation,
    before: ResolutionCaches,
    after: ResolutionCaches,
    ev: ResolutionEvent,
    next: ResolutionStage,
    action: ResolutionAction,
) -> bool {
    match (s, ev) {
        (ResolutionStage::Start, ResolutionEvent::Begin) => {
            &&& project_entries(after) == project_entries(before)
            &&& task_entries(after) == task_entries(before)
            &&& match cached_project_id(project_entries(before), op.project_selector@) {
                Some(p) => after_project(op, task_entries(before), p, next, action),
                None => next is ResolvingProject && action is ResolveProject,
            }
        },
        (ResolutionStage::ResolvingProject, ResolutionEvent::ProjectResolved(answer)) => match answer {
            None => project_entries(after) == project_entries(before) && task_entries(after) == task_entries(before)
                && next is Finished && (action matches ResolutionAction::Finish(Resolution::Immediate(o)) && interrupted_with(o, op, None)),
            Some(Err(e)) => project_entries(after) == project_entries(before) && task_entries(after) == task_entries(before)
                && next is Finished && (action matches ResolutionAction::Finish(Resolution::Immediate(o)) && failed_with(o, op, None, e)),
            Some(Ok(p)) => {
                &&& project_entries(after) == project_entries(before).push((op.project_selector@, p))
                &&& task_entries(after) == task_entries(before)
                &&& after_project(op, task_entries(before), p, next, action)
            },
        },
        (ResolutionStage::ResolvingTask { project_id }, ResolutionEvent::TaskResolved(answer)) => match answer {
            None => project_entries(after) == project_entries(before) && task_entries(after) == task_entries(before)
                && next is Finished && (action matches ResolutionAction::Finish(Resolution::Immediate(o))
                && interrupted_with(o, op, Some(project_id))),
            Some(Err(e)) => project_entries(after) == project_entries(before) && task_entries(after) == task_entries(before)
                && next is Finished && (action matches ResolutionAction::Finish(Resolution::Immediate(o))
                && failed_with(o, op, Some(project_id), e)),
            Some(Ok(t)) => {
                &&& project_entries(after) == project_entries(before)
                &&& (op.task_selector matches Some(sel) ==> task_entries(after) == task_entries(before).push((project_id, sel@, t)))
                &&& next is Finished
                &&& action == ResolutionAction::Finish(Resolution::Mutation { project_id, task_id: Some(t) })
            },
        },
        _ => project_entries(after) == project_entries(before) && task_entries(after) == task_entries(before) && next == s
            && action is Wait,
    }
}

/// A project selector resolved earlier in the batch is not looked up
/// again, and neither is a task selector resolved earlier in the same
/// project: the cached identifiers are used.
pub proof fn lemma_cached_selectors_are_not_looked_up_again(
    op: PendingOperation,
    before: ResolutionCaches,
    after: ResolutionCaches,
    next: ResolutionStage,
    action: ResolutionAction,
)
    requires
        resolution_step_ok(ResolutionStage::Start, op, before, after, ResolutionEvent::Begin, next, action),
        cached_project_id(project_entries(before), op.project_selector@) is Some,
    ensures
        !(action is ResolveProject),
        (op.task_selector matches Some(sel)
            && cached_task_id(task_entries(before), cached_project_id(project_entries(before), op.project_selector@)->0, sel@) is Some)
            ==> action is Finish,
{
}

fn continue_with_project(op: &PendingOperation, caches: &ResolutionCaches, project_id: u128) -> (r: (ResolutionStage, ResolutionAction))
    ensures
        after_project(*op, task_entries(*caches), project_id, r.0, r.1),
{
    match &op.task_selector {
        None => (ResolutionStage::Finished, ResolutionAction::Finish(Resolution::Mutation { project_id, task_id: None })),
        Some(sel) => match caches.task(project_id, sel.as_str()) {
            Some(t) => (ResolutionStage::Finished, ResolutionAction::Finish(Resolution::Mutation { project_id, task_id: Some(t) })),
            None => (ResolutionStage::ResolvingTask { project_id }, ResolutionAction::ResolveTask { project_id }),
        },
    }
}

/// Decides the next step of resolving `op`'s selectors, keeping `caches`
/// up to date across the batch.
pub fn resolution_step(s: ResolutionStage, op: &PendingOperation, caches: &mut ResolutionCaches, ev: ResolutionEvent) -> (r: (ResolutionStage, ResolutionAction))
    ensures
        resolution_step_ok(s, *op, *old(caches), *final(caches), ev, r.0, r.1),
{
    match (s, ev) {
        (ResolutionStage::Start, ResolutionEvent::Begin) => match caches.project(op.project_selector.as_str()) {
            Some(p) => continue_with_project(op, caches, p),
            None => (ResolutionStage::ResolvingProject, ResolutionAction::ResolveProject),
        },
        (ResolutionStage::ResolvingProject, ResolutionEvent::ProjectResolved(answer)) => match answer {
            None => (ResolutionStage::Finished, ResolutionAction::Finish(Resolution::Immediate(OperationOutcome::interrupted_parts(
                op.index, owned(op.operation_id.as_str()), op.kind, None, None)))),
            Some(Err(e)) => (ResolutionStage::Finished, ResolutionAction::Finish(Resolution::Immediate(
                OperationOutcome::failed_runtime_parts(op.index, owned(op.operation_id.as_str()), op.kind, None, None, e)))),
            Some(Ok(p)) => {
                caches.remember_project(op.project_selector.as_str(), p);
                continue_with_project(op, caches, p)
            },
        },
        (ResolutionStage::ResolvingTask { project_id }, ResolutionEvent::TaskResolved(answer)) => match answer {
            None => (ResolutionStage::Finished, ResolutionAction::Finish(Resolution::Immediate(OperationOutcome::interrupted_parts(
                op.index, owned(op.operation_id.as_str()), op.kind, Some(project_id), None)))),
            Some(Err(e)) => (ResolutionStage::Finished, ResolutionAction::Finish(Resolution::Immediate(
                OperationOutcome::failed_runtime_parts(op.index, owned(op.operation_id.as_str()), op.kind, Some(project_id), None, e)))),
            Some(Ok(t)) => {
                if let Some(sel) = &op.task_selector {
                    caches.remember_task(project_id, sel.as_str(), t);
                }
                (ResolutionStage::Finished, ResolutionAction::Finish(Resolution::Mutation { project_id, task_id: Some(t) }))
            },
        },
        (s, _) => (s, ResolutionAction::Wait),
    }
}

} // verus!
