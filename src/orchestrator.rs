use vstd::prelude::*;

verus! {

/// What to do to make sure a branch exists, given what a lookup found.
#[derive(Debug, Clone, Copy, PartialEq, Eq, Structural)]
pub enum BranchAction {
    UseExisting(u64),
    Create,
}

/// Decides the branch step: an existing branch is kept as it is.
pub fn ensure_branch_action(found: Option<u64>) -> (r: BranchAction)
    ensures
        found matches Some(b) ==> r == BranchAction::UseExisting(b),
        found is None ==> r == BranchAction::Create,
        r == ensure_branch_action_spec(found),
{
    match found {
        Some(b) => BranchAction::UseExisting(b),
        None => BranchAction::Create,
    }
}

/// Once a branch was created as `b`, asking again keeps `b` and creates nothing.
pub proof fn lemma_ensure_branch_idempotent(b: u64)
    ensures
        ensure_branch_action_spec(Some(b)) == BranchAction::UseExisting(b),
{
}

pub open spec fn ensure_branch_action_spec(found: Option<u64>) -> BranchAction {
    match found {
        Some(b) => BranchAction::UseExisting(b),
        None => BranchAction::Create,
    }
}

/// The release-candidate step: the number of the new candidate and whether the
/// team gets the merge instructions.
#[derive(Debug, Clone, Copy, PartialEq, Eq, Structural)]
pub struct RcPlan {
    pub rc_number: u64,
    pub notify_team_core: bool,
}

pub open spec fn rc_plan_spec(existing: u64) -> RcPlan {
    RcPlan { rc_number: existing, notify_team_core: existing == 0 }
}

/// Plans the next release candidate from the number of prereleases already published.
pub fn rc_plan(existing_prereleases: u64) -> (r: RcPlan)
    ensures
        r == rc_plan_spec(existing_prereleases),
{
    RcPlan { rc_number: existing_prereleases, notify_team_core: existing_prereleases == 0 }
}

/// Two candidates in a row get consecutive numbers, and only the first of a
/// version sends the merge instructions.
pub proof fn lemma_rc_twice(existing: u64)
    requires
        existing < u64::MAX,
    ensures
        rc_plan_spec((existing + 1) as u64).rc_number == rc_plan_spec(existing).rc_number + 1,
        !rc_plan_spec((existing + 1) as u64).notify_team_core,
        rc_plan_spec(existing).notify_team_core <==> existing == 0,
{
}

/// Where a workflow stands.
#[derive(Debug, Clone, Copy, PartialEq, Eq, Structural)]
pub enum WorkflowState {
    Running,
    Done,
    Failed,
}

/// The outcome of a remote step.
#[derive(Debug, Clone, Copy, PartialEq, Eq, Structural)]
pub enum StepOutcome {
    Succeeded,
    AlreadyExists,
    RemoteUnavailable,
    PermissionDenied,
    ConflictingState,
    NotificationFailed,
}

pub open spec fn after_step_spec(s: WorkflowState, o: StepOutcome, last: bool) -> WorkflowState {
    match s {
        WorkflowState::Running => match o {
            StepOutcome::RemoteUnavailable | StepOutcome::PermissionDenied
            | StepOutcome::ConflictingState => WorkflowState::Failed,
            _ => if last {
                WorkflowState::Done
            } else {
                WorkflowState::Running
            },
        },
        _ => s,
    }
}

/// The state after a step: definitive remote failures fail the workflow; an
/// existing object and a failed notification count as progress.
pub fn after_step(s: WorkflowState, o: StepOutcome, last: bool) -> (r: WorkflowState)
    ensures
        r == after_step_spec(s, o, last),
{
    match s {
        WorkflowState::Running => match o {
            StepOutcome::RemoteUnavailable | StepOutcome::PermissionDenied
            | StepOutcome::ConflictingState => WorkflowState::Failed,
            _ => if last {
                WorkflowState::Done
            } else {
                WorkflowState::Running
            },
        },
        _ => s,
    }
}

/// A failed notification never turns a finished workflow into a failed one.
pub proof fn lemma_notification_failure_not_fatal(s: WorkflowState, last: bool)
    ensures
        after_step_spec(s, StepOutcome::NotificationFailed, last) != WorkflowState::Failed
            || s == WorkflowState::Failed,
        after_step_spec(s, StepOutcome::NotificationFailed, last) == after_step_spec(
            s,
            StepOutcome::Succeeded,
            last,
        ),
{
}

} // verus!
