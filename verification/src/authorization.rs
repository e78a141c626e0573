//! The state-gated action authorization table: a total function from the
//! reported system state to the set of permitted action kinds. The table is
//! advisory — it gates what a user interface offers; the controlled system
//! itself remains the authority — and a state outside the explicit rules
//! permits nothing rather than failing.

use vstd::prelude::*;

verus! {

/// The operating states the controlled vision system reports.
#[derive(Debug, Clone, Copy, PartialEq, Eq, Structural)]
pub enum State {
    Preoperational,
    Halted,
    Error,
    Initialized,
    Ready,
    SingleExecution,
    ContinuousExecution,
    FrontendAccess,
}

/// The kinds of command a user can request.
#[derive(Debug, Clone, Copy, PartialEq, Eq, Structural)]
pub enum ActionType {
    SelectModeAutomatic,
    PrepareRecipe,
    UnprepareRecipe,
    StartSingleJob,
    StartContinuous,
    Reset,
    Halt,
    Stop,
    Abort,
}

/// The authorization table itself: whether `action` is permitted in
/// `state`. Total by construction — every state/action pair resolves to a
/// boolean, and unlisted combinations resolve to `false`.
pub open spec fn spec_permitted(state: State, action: ActionType) -> bool {
    match state {
        State::Preoperational => action == ActionType::SelectModeAutomatic || action
            == ActionType::Halt,
        State::Halted => action == ActionType::Reset,
        State::Error => action == ActionType::Reset || action == ActionType::Halt,
        State::Initialized => action == ActionType::PrepareRecipe || action == ActionType::Reset
            || action == ActionType::Halt,
        State::Ready => action == ActionType::PrepareRecipe || action
            == ActionType::UnprepareRecipe || action == ActionType::StartSingleJob || action
            == ActionType::StartContinuous || action == ActionType::Reset || action
            == ActionType::Halt,
        State::SingleExecution => action == ActionType::Reset || action == ActionType::Halt
            || action == ActionType::Stop || action == ActionType::Abort,
        State::ContinuousExecution => action == ActionType::Reset || action == ActionType::Halt
            || action == ActionType::Stop || action == ActionType::Abort,
        State::FrontendAccess => false,
    }
}

/// Decides one cell of the authorization table.
pub fn permitted(state: State, action: ActionType) -> (r: bool)
    ensures
        r == spec_permitted(state, action),
{
    match state {
        State::Preoperational => matches!(
            action,
            ActionType::SelectModeAutomatic | ActionType::Halt
        ),
        State::Halted => matches!(action, ActionType::Reset),
        State::Error => matches!(action, ActionType::Reset | ActionType::Halt),
        State::Initialized => matches!(
            action,
            ActionType::PrepareRecipe | ActionType::Reset | ActionType::Halt
        ),
        State::Ready => matches!(
            action,
            ActionType::PrepareRecipe | ActionType::UnprepareRecipe | ActionType::StartSingleJob
                | ActionType::StartContinuous | ActionType::Reset | ActionType::Halt
        ),
        State::SingleExecution => matches!(
            action,
            ActionType::Reset | ActionType::Halt | ActionType::Stop | ActionType::Abort
        ),
        State::ContinuousExecution => matches!(
            action,
            ActionType::Reset | ActionType::Halt | ActionType::Stop | ActionType::Abort
        ),
        State::FrontendAccess => false,
    }
}

/// One permitted-or-not flag per action kind, the row of the table for one
/// state.
#[derive(Debug, Clone, Copy, PartialEq, Eq, Structural)]
pub struct ActionMap {
    pub select_mode_automatic: bool,
    pub prepare_recipe: bool,
    pub unprepare_recipe: bool,
    pub start_single_job: bool,
    pub start_continuous: bool,
    pub reset: bool,
    pub halt: bool,
    pub stop: bool,
    pub abort: bool,
}

impl ActionMap {
    /// The flag this map holds for an action kind.
    pub open spec fn spec_get(&self, action: ActionType) -> bool {
        match action {
            ActionType::SelectModeAutomatic => self.select_mode_automatic,
            ActionType::PrepareRecipe => self.prepare_recipe,
            ActionType::UnprepareRecipe => self.unprepare_recipe,
            ActionType::StartSingleJob => self.start_single_job,
            ActionType::StartContinuous => self.start_continuous,
            ActionType::Reset => self.reset,
            ActionType::Halt => self.halt,
            ActionType::Stop => self.stop,
            ActionType::Abort => self.abort,
        }
    }

    /// Reads the flag for an action kind.
    pub fn get(&self, action: ActionType) -> (r: bool)
        ensures
            r == self.spec_get(action),
    {
        match action {
            ActionType::SelectModeAutomatic => self.select_mode_automatic,
            ActionType::PrepareRecipe => self.prepare_recipe,
            ActionType::UnprepareRecipe => self.unprepare_recipe,
            ActionType::StartSingleJob => self.start_single_job,
            ActionType::StartContinuous => self.start_continuous,
            ActionType::Reset => self.reset,
            ActionType::Halt => self.halt,
            ActionType::Stop => self.stop,
            ActionType::Abort => self.abort,
        }
    }
}

/// The full table row for a state: a defined boolean for every action kind,
/// for every state, with no failure path across the state space.
pub fn available_actions(state: State) -> (m: ActionMap)
    ensures
        forall|a: ActionType| #[trigger] m.spec_get(a) == spec_permitted(state, a),
{
    let m = ActionMap {
        select_mode_automatic: permitted(state, ActionType::SelectModeAutomatic),
        prepare_recipe: permitted(state, ActionType::PrepareRecipe),
        unprepare_recipe: permitted(state, ActionType::UnprepareRecipe),
        start_single_job: permitted(state, ActionType::StartSingleJob),
        start_continuous: permitted(state, ActionType::StartContinuous),
        reset: permitted(state, ActionType::Reset),
        halt: permitted(state, ActionType::Halt),
        stop: permitted(state, ActionType::Stop),
        abort: permitted(state, ActionType::Abort),
    };
    proof {
        assert forall|a: ActionType| #[trigger] m.spec_get(a) == spec_permitted(state, a) by {
            match a {
                ActionType::SelectModeAutomatic => {},
                ActionType::PrepareRecipe => {},
                ActionType::UnprepareRecipe => {},
                ActionType::StartSingleJob => {},
                ActionType::StartContinuous => {},
                ActionType::Reset => {},
                ActionType::Halt => {},
                ActionType::Stop => {},
                ActionType::Abort => {},
            }
        }
    }
    m
}

} // verus!
