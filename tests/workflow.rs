use releasemops::orchestrator::{
    after_step, ensure_branch_action, rc_plan, BranchAction, RcPlan, StepOutcome, WorkflowState,
};

#[test]
fn ensure_branch_twice_creates_once() {
    assert_eq!(ensure_branch_action(None), BranchAction::Create);
    assert_eq!(ensure_branch_action(Some(42)), BranchAction::UseExisting(42));
    assert_eq!(ensure_branch_action(Some(42)), BranchAction::UseExisting(42));
}

#[test]
fn rc_twice_increments() {
    assert_eq!(rc_plan(0), RcPlan { rc_number: 0, notify_team_core: true });
    assert_eq!(rc_plan(1), RcPlan { rc_number: 1, notify_team_core: false });
}

#[test]
fn notification_failure_keeps_done() {
    let s = after_step(WorkflowState::Running, StepOutcome::NotificationFailed, true);
    assert_eq!(s, WorkflowState::Done);
    assert_eq!(after_step(WorkflowState::Done, StepOutcome::NotificationFailed, true), WorkflowState::Done);
    assert_eq!(after_step(WorkflowState::Running, StepOutcome::AlreadyExists, false), WorkflowState::Running);
    assert_eq!(after_step(WorkflowState::Running, StepOutcome::ConflictingState, false), WorkflowState::Failed);
}
