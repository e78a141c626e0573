use mv_mqtt_client::actions::{
    action_json, build, first_prepared_id, gather_start_parameters, Action, ActionContext,
    InputField, ModeType,
};
use mv_mqtt_client::authorization::ActionType;

fn ctx(
    explicit: Option<&str>,
    prepared: Option<&str>,
    params: Option<Vec<&str>>,
) -> ActionContext {
    ActionContext {
        explicit_recipe_id: explicit.map(|s| s.to_string()),
        prepared_recipe_id: prepared.map(|s| s.to_string()),
        start_parameters: params.map(|ps| ps.into_iter().map(|p| p.to_string()).collect()),
    }
}

#[test]
fn prepare_recipe_with_explicit_id_serializes_the_id() {
    let a = build(ActionType::PrepareRecipe, ctx(Some("42"), None, None));
    assert_eq!(
        action_json(&a),
        "{\"actionType\":\"PrepareRecipe\",\"recipeId\":\"42\"}"
    );
}

#[test]
fn unprepare_recipe_falls_back_to_the_prepared_id() {
    let a = build(ActionType::UnprepareRecipe, ctx(None, Some("5"), None));
    assert_eq!(
        action_json(&a),
        "{\"actionType\":\"UnprepareRecipe\",\"recipeId\":\"5\"}"
    );
}

#[test]
fn reset_serializes_with_no_extra_fields() {
    let a = build(ActionType::Reset, ctx(None, Some("5"), Some(vec!["x"])));
    assert_eq!(action_json(&a), "{\"actionType\":\"Reset\"}");
}

#[test]
fn plain_actions_serialize_as_bare_tags() {
    assert_eq!(action_json(&Action::Halt), "{\"actionType\":\"Halt\"}");
    assert_eq!(action_json(&Action::Stop), "{\"actionType\":\"Stop\"}");
    assert_eq!(action_json(&Action::Abort), "{\"actionType\":\"Abort\"}");
}

#[test]
fn explicit_id_wins_over_prepared_id() {
    let a = build(ActionType::PrepareRecipe, ctx(Some("42"), Some("5"), None));
    assert_eq!(
        action_json(&a),
        "{\"actionType\":\"PrepareRecipe\",\"recipeId\":\"42\"}"
    );
}

#[test]
fn missing_recipe_id_is_omitted_not_null() {
    let a = build(ActionType::UnprepareRecipe, ctx(None, None, None));
    assert_eq!(action_json(&a), "{\"actionType\":\"UnprepareRecipe\"}");
}

#[test]
fn select_mode_serializes_the_mode_name() {
    let a = build(ActionType::SelectModeAutomatic, ctx(None, None, None));
    assert_eq!(
        action_json(&a),
        "{\"actionType\":\"SelectMode\",\"mode\":\"Automatic\"}"
    );
    assert_eq!(
        action_json(&Action::SelectMode { mode: ModeType::FrontendAccess }),
        "{\"actionType\":\"SelectMode\",\"mode\":\"FrontendAccess\"}"
    );
}

#[test]
fn start_single_job_carries_prepared_id_and_parameters() {
    let a = build(
        ActionType::StartSingleJob,
        ctx(None, Some("7"), Some(vec!["a", "b"])),
    );
    assert_eq!(
        action_json(&a),
        "{\"actionType\":\"StartSingleJob\",\"recipeId\":\"7\",\"parameters\":[\"a\",\"b\"]}"
    );
}

#[test]
fn start_continuous_without_parameters_omits_the_list() {
    let a = build(ActionType::StartContinuous, ctx(None, None, None));
    assert_eq!(action_json(&a), "{\"actionType\":\"StartContinuous\"}");
}

#[test]
fn start_job_with_empty_parameter_list_serializes_empty_array() {
    let a = build(ActionType::StartSingleJob, ctx(None, None, Some(vec![])));
    assert_eq!(
        action_json(&a),
        "{\"actionType\":\"StartSingleJob\",\"parameters\":[]}"
    );
}

#[test]
fn recipe_ids_are_json_escaped() {
    let a = build(
        ActionType::PrepareRecipe,
        ctx(Some("a\"b\\c"), None, None),
    );
    assert_eq!(
        action_json(&a),
        "{\"actionType\":\"PrepareRecipe\",\"recipeId\":\"a\\\"b\\\\c\"}"
    );
}

#[test]
fn control_characters_are_escaped_as_in_json() {
    let a = build(
        ActionType::PrepareRecipe,
        ctx(Some("x\ny\t\u{1}z\u{8}\u{c}\r\u{1f}"), None, None),
    );
    assert_eq!(
        action_json(&a),
        "{\"actionType\":\"PrepareRecipe\",\"recipeId\":\"x\\ny\\t\\u0001z\\b\\f\\r\\u001f\"}"
    );
}

#[test]
fn gather_takes_all_texts_when_every_field_is_editable() {
    let fields = vec![
        InputField { editable: true, text: "1".to_string() },
        InputField { editable: true, text: "two".to_string() },
    ];
    assert_eq!(
        gather_start_parameters(&fields),
        Some(vec!["1".to_string(), "two".to_string()])
    );
}

#[test]
fn gather_yields_nothing_when_any_field_is_not_editable() {
    let fields = vec![
        InputField { editable: true, text: "1".to_string() },
        InputField { editable: false, text: "two".to_string() },
    ];
    assert_eq!(gather_start_parameters(&fields), None);
}

#[test]
fn gather_of_no_fields_is_an_empty_list() {
    assert_eq!(gather_start_parameters(&vec![]), Some(vec![]));
}

#[test]
fn first_prepared_id_takes_the_head_of_the_list() {
    assert_eq!(
        first_prepared_id(&vec!["5".to_string(), "7".to_string()]),
        Some("5".to_string())
    );
    assert_eq!(first_prepared_id(&vec![]), None);
}
