use mv_mqtt_client::pattern::TopicPattern;
use mv_mqtt_client::registry::{
    standard_subscriptions, topic_filters, PayloadKind, Registry, Subscription,
};

fn sub(pattern: &str, kind: PayloadKind) -> Subscription {
    match TopicPattern::compile(pattern) {
        Ok(p) => Subscription { pattern: p, kind },
        Err(_) => panic!("pattern {} should compile", pattern),
    }
}

#[test]
fn dispatch_picks_the_first_match_in_registration_order() {
    let mut reg = Registry::new();
    reg.register_all(vec![
        sub("merlic/#", PayloadKind::StateUpdate),
        sub("merlic/state", PayloadKind::ErrorReport),
    ]);
    // Both patterns match; only the first-registered entry fires.
    assert_eq!(reg.dispatch("merlic/state"), Some(0));
}

#[test]
fn dispatch_skips_earlier_non_matching_entries() {
    let mut reg = Registry::new();
    reg.register_all(vec![
        sub("merlic/state", PayloadKind::StateUpdate),
        sub("merlic/recipes", PayloadKind::RecipeList),
        sub("merlic/recipes/+/result", PayloadKind::NewResult),
    ]);
    assert_eq!(reg.dispatch("merlic/recipes/7/result"), Some(2));
    assert_eq!(reg.dispatch("merlic/recipes"), Some(1));
}

#[test]
fn unmatched_topic_dispatches_nowhere() {
    let mut reg = Registry::new();
    reg.register_all(vec![
        sub("merlic/state", PayloadKind::StateUpdate),
        sub("merlic/error", PayloadKind::ErrorReport),
    ]);
    assert_eq!(reg.dispatch("merlic/other"), None);
    assert_eq!(reg.dispatch(""), None);
}

#[test]
fn empty_registry_dispatches_nowhere() {
    let reg = Registry::new();
    assert_eq!(reg.dispatch("merlic/state"), None);
}

#[test]
fn replacing_the_set_retires_the_old_patterns() {
    let mut reg = Registry::new();
    reg.register_all(vec![sub("old/topic", PayloadKind::StateUpdate)]);
    assert_eq!(reg.dispatch("old/topic"), Some(0));
    reg.register_all(vec![sub("new/topic", PayloadKind::RecipeList)]);
    // A message matching only the retired pattern is dropped.
    assert_eq!(reg.dispatch("old/topic"), None);
    assert_eq!(reg.dispatch("new/topic"), Some(0));
}

#[test]
fn standard_subscriptions_cover_the_topic_set_in_order() {
    let subs = match standard_subscriptions("merlic") {
        Ok(s) => s,
        Err(_) => panic!("standard subscriptions should compile"),
    };
    let filters = topic_filters(&subs);
    assert_eq!(
        filters,
        vec![
            "merlic/state".to_string(),
            "merlic/preparedRecipeIds".to_string(),
            "merlic/recipes".to_string(),
            "merlic/recipes/+/result".to_string(),
            "merlic/error".to_string(),
        ]
    );
    assert_eq!(subs[0].kind, PayloadKind::StateUpdate);
    assert_eq!(subs[1].kind, PayloadKind::PreparedRecipeIds);
    assert_eq!(subs[2].kind, PayloadKind::RecipeList);
    assert_eq!(subs[3].kind, PayloadKind::NewResult);
    assert_eq!(subs[4].kind, PayloadKind::ErrorReport);
}

#[test]
fn standard_subscriptions_dispatch_their_own_topics() {
    let subs = match standard_subscriptions("merlic") {
        Ok(s) => s,
        Err(_) => panic!("standard subscriptions should compile"),
    };
    let mut reg = Registry::new();
    reg.register_all(subs);
    assert_eq!(reg.dispatch("merlic/state"), Some(0));
    assert_eq!(reg.dispatch("merlic/preparedRecipeIds"), Some(1));
    assert_eq!(reg.dispatch("merlic/recipes"), Some(2));
    assert_eq!(reg.dispatch("merlic/recipes/42/result"), Some(3));
    assert_eq!(reg.dispatch("merlic/error"), Some(4));
    assert_eq!(reg.dispatch("other/state"), None);
}

#[test]
fn standard_subscriptions_reject_a_prefix_with_inner_multi_wildcard() {
    assert!(standard_subscriptions("#").is_err());
    assert!(standard_subscriptions("a/#").is_err());
    assert!(standard_subscriptions("merlic").is_ok());
}
