use sealtask::batch::OutcomeStatus;
use sealtask::checkpoint::OperationKind;
use sealtask::error::PublicError;
use sealtask::resolution::{
    resolution_step, PendingOperation, Resolution, ResolutionAction, ResolutionCaches, ResolutionEvent, ResolutionStage,
};

fn update(index: usize, project: &str, task: &str) -> PendingOperation {
    PendingOperation {
        index,
        operation_id: format!("op-{index}"),
        kind: OperationKind::TaskUpdate,
        project_selector: project.to_string(),
        task_selector: Some(task.to_string()),
    }
}

#[test]
fn resolves_an_update_and_reuses_cached_selectors() {
    let mut caches = ResolutionCaches::new();
    let op = update(0, "Alpha", "#3");
    let (s, a) = resolution_step(ResolutionStage::Start, &op, &mut caches, ResolutionEvent::Begin);
    assert!(matches!(a, ResolutionAction::ResolveProject));
    let (s, a) = resolution_step(s, &op, &mut caches, ResolutionEvent::ProjectResolved(Some(Ok(7))));
    assert!(matches!(a, ResolutionAction::ResolveTask { project_id: 7 }));
    let (s, a) = resolution_step(s, &op, &mut caches, ResolutionEvent::TaskResolved(Some(Ok(9))));
    assert!(matches!(s, ResolutionStage::Finished));
    assert!(matches!(a, ResolutionAction::Finish(Resolution::Mutation { project_id: 7, task_id: Some(9) })));
    assert_eq!(caches.project("Alpha"), Some(7));
    assert_eq!(caches.task(7, "#3"), Some(9));

    // The same selectors later in the batch need no lookup.
    let again = update(1, "Alpha", "#3");
    let (_, a) = resolution_step(ResolutionStage::Start, &again, &mut caches, ResolutionEvent::Begin);
    assert!(matches!(a, ResolutionAction::Finish(Resolution::Mutation { project_id: 7, task_id: Some(9) })));

    // A creation needs only its project.
    let create = PendingOperation {
        index: 2,
        operation_id: "op-2".to_string(),
        kind: OperationKind::TaskCreate,
        project_selector: "Alpha".to_string(),
        task_selector: None,
    };
    let (_, a) = resolution_step(ResolutionStage::Start, &create, &mut caches, ResolutionEvent::Begin);
    assert!(matches!(a, ResolutionAction::Finish(Resolution::Mutation { project_id: 7, task_id: None })));
}

#[test]
fn interrupted_or_failed_lookups_end_with_an_outcome() {
    let mut caches = ResolutionCaches::new();
    let op = update(4, "Beta", "#1");
    let (s, _) = resolution_step(ResolutionStage::Start, &op, &mut caches, ResolutionEvent::Begin);
    let (_, a) = resolution_step(s, &op, &mut caches, ResolutionEvent::ProjectResolved(None));
    match a {
        ResolutionAction::Finish(Resolution::Immediate(o)) => {
            assert_eq!(o.status, OutcomeStatus::Interrupted);
            assert_eq!(o.index, 4);
            assert_eq!(o.project_id, None);
            assert_eq!(o.fatal_exit_code, Some(130));
        }
        other => panic!("unexpected action {other:?}"),
    }

    let (_, a) = resolution_step(
        ResolutionStage::ResolvingTask { project_id: 7 },
        &op,
        &mut caches,
        ResolutionEvent::TaskResolved(Some(Err(PublicError::validation("no such task".to_string())))),
    );
    match a {
        ResolutionAction::Finish(Resolution::Immediate(o)) => {
            assert_eq!(o.status, OutcomeStatus::Failed);
            assert_eq!(o.project_id, Some(7));
            assert_eq!(o.error.expect("error").code, "validation");
        }
        other => panic!("unexpected action {other:?}"),
    }
    assert_eq!(caches.task(7, "#1"), None);

    // An event that does not belong to the stage changes nothing.
    let (s, a) = resolution_step(ResolutionStage::ResolvingProject, &op, &mut caches, ResolutionEvent::Begin);
    assert!(matches!(s, ResolutionStage::ResolvingProject));
    assert!(matches!(a, ResolutionAction::Wait));
}
