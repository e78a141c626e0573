use mv_mqtt_client::authorization::{available_actions, permitted, ActionType, State};

fn all_states() -> Vec<State> {
    vec![
        State::Preoperational,
        State::Halted,
        State::Error,
        State::Initialized,
        State::Ready,
        State::SingleExecution,
        State::ContinuousExecution,
        State::FrontendAccess,
    ]
}

fn all_actions() -> Vec<ActionType> {
    vec![
        ActionType::SelectModeAutomatic,
        ActionType::PrepareRecipe,
        ActionType::UnprepareRecipe,
        ActionType::StartSingleJob,
        ActionType::StartContinuous,
        ActionType::Reset,
        ActionType::Halt,
        ActionType::Stop,
        ActionType::Abort,
    ]
}

fn expected(state: State, action: ActionType) -> bool {
    match state {
        State::Preoperational => matches!(
            action,
            ActionType::SelectModeAutomatic | ActionType::Halt
        ),
        State::Halted => matches!(action, ActionType::Reset),
        State::Error => matches!(action, ActionType::Reset | ActionType::Halt),
        State::Initialized => matches!(
            action,
            ActionType::PrepareRecipe | ActionType::Reset | ActionType::Halt
        ),
        State::Ready => matches!(
            action,
            ActionType::PrepareRecipe
                | ActionType::UnprepareRecipe
                | ActionType::StartSingleJob
                | ActionType::StartContinuous
                | ActionType::Reset
                | ActionType::Halt
        ),
        State::SingleExecution | State::ContinuousExecution => matches!(
            action,
            ActionType::Reset | ActionType::Halt | ActionType::Stop | ActionType::Abort
        ),
        State::FrontendAccess => false,
    }
}

#[test]
fn every_state_yields_a_defined_flag_for_every_action() {
    // The whole state space: no combination panics or goes undefined.
    for state in all_states() {
        let map = available_actions(state);
        for action in all_actions() {
            assert_eq!(map.get(action), expected(state, action));
            assert_eq!(permitted(state, action), expected(state, action));
        }
    }
}

#[test]
fn ready_permits_the_recipe_and_start_actions() {
    let map = available_actions(State::Ready);
    assert!(map.prepare_recipe);
    assert!(map.unprepare_recipe);
    assert!(map.start_single_job);
    assert!(map.start_continuous);
    assert!(map.reset);
    assert!(map.halt);
    assert!(!map.select_mode_automatic);
    assert!(!map.stop);
    assert!(!map.abort);
}

#[test]
fn frontend_access_permits_nothing() {
    let map = available_actions(State::FrontendAccess);
    for action in all_actions() {
        assert!(!map.get(action));
    }
}

#[test]
fn execution_states_permit_only_the_stopping_actions() {
    for state in [State::SingleExecution, State::ContinuousExecution] {
        let map = available_actions(state);
        assert!(map.reset);
        assert!(map.halt);
        assert!(map.stop);
        assert!(map.abort);
        assert!(!map.prepare_recipe);
        assert!(!map.start_single_job);
        assert!(!map.start_continuous);
        assert!(!map.select_mode_automatic);
        assert!(!map.unprepare_recipe);
    }
}
