use mv_mqtt_client::config::{broker_url, credentials_from};
use mv_mqtt_client::text::ellipt;

#[test]
fn short_phrases_pass_through_unchanged() {
    assert_eq!(ellipt("hello world", 25), "hello world");
    assert_eq!(ellipt("one", 25), "one");
    assert_eq!(ellipt("", 5), "");
}

#[test]
fn long_phrases_are_cut_at_a_word_boundary() {
    assert_eq!(ellipt("hello world", 3), "hello...");
    assert_eq!(ellipt("The quick brown fox jumps", 10), "The quick...");
}

#[test]
fn a_budget_of_zero_or_one_keeps_no_words() {
    assert_eq!(ellipt("hello world", 0), "...");
    assert_eq!(ellipt("hello world", 1), "...");
}

#[test]
fn a_budget_of_two_keeps_the_first_word() {
    // The first word is kept whenever the budget exceeds one, whatever the
    // word's length.
    assert_eq!(ellipt("extraordinary things", 2), "extraordinary...");
}

#[test]
fn reflowed_whitespace_is_marked_as_a_change() {
    assert_eq!(ellipt("a  b", 25), "a b...");
    assert_eq!(ellipt(" a b", 25), "a b...");
    assert_eq!(ellipt("a b ", 25), "a b...");
    assert_eq!(ellipt("a\tb", 25), "a b...");
}

#[test]
fn whitespace_only_phrases_collapse_to_the_marker() {
    assert_eq!(ellipt("   ", 25), "...");
}

#[test]
fn broker_url_joins_host_and_port() {
    assert_eq!(broker_url("localhost", 1883), "tcp://localhost:1883");
    assert_eq!(broker_url("10.0.0.2", 80), "tcp://10.0.0.2:80");
    assert_eq!(broker_url("broker", 0), "tcp://broker:0");
    assert_eq!(broker_url("broker", 65535), "tcp://broker:65535");
}

#[test]
fn credentials_require_both_parts() {
    let both = credentials_from(Some("u".to_string()), Some("p".to_string()));
    match both {
        Some(c) => {
            assert_eq!(c.username, "u");
            assert_eq!(c.password, "p");
        },
        None => panic!("both parts given, credentials expected"),
    }
    assert!(credentials_from(Some("u".to_string()), None).is_none());
    assert!(credentials_from(None, Some("p".to_string())).is_none());
    assert!(credentials_from(None, None).is_none());
}
