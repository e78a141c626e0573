use mv_mqtt_client::pattern::{PatternError, TopicPattern};

fn compiled(pattern: &str) -> TopicPattern {
    match TopicPattern::compile(pattern) {
        Ok(p) => p,
        Err(_) => panic!("pattern {} should compile", pattern),
    }
}

#[test]
fn literal_pattern_matches_itself_only() {
    let p = compiled("merlic/state");
    assert!(p.matches("merlic/state"));
    assert!(!p.matches("merlic/states"));
    assert!(!p.matches("merlic"));
    assert!(!p.matches("merlic/state/extra"));
    assert!(!p.matches("Merlic/state"));
}

#[test]
fn segment_counts_must_agree_without_multi_wildcard() {
    let p = compiled("a/+/c");
    assert!(p.matches("a/b/c"));
    assert!(!p.matches("a/b"));
    assert!(!p.matches("a/b/c/d"));
    assert!(!p.matches("a/b/x"));
}

#[test]
fn single_wildcard_requires_nonempty_segment() {
    let p = compiled("merlic/recipes/+/result");
    assert!(p.matches("merlic/recipes/7/result"));
    assert!(!p.matches("merlic/recipes/7/8/result"));
    assert!(!p.matches("merlic/recipes//result"));
}

#[test]
fn single_wildcard_matches_any_content() {
    let p = compiled("a/+");
    assert!(p.matches("a/b"));
    assert!(p.matches("a/with spaces"));
    assert!(p.matches("a/."));
    assert!(!p.matches("a/"));
    assert!(!p.matches("a/b/c"));
}

#[test]
fn multi_wildcard_takes_one_or_more_trailing_segments() {
    let p = compiled("a/#");
    assert!(p.matches("a/b"));
    assert!(p.matches("a/b/c"));
    assert!(p.matches("a/b/c/d"));
    assert!(!p.matches("a"));
    assert!(!p.matches("b/c"));
}

#[test]
fn multi_wildcard_alone_matches_any_topic_with_a_segment() {
    let p = compiled("#");
    assert!(p.matches("a"));
    assert!(p.matches("a/b/c"));
}

#[test]
fn multi_wildcard_not_last_is_rejected() {
    assert!(matches!(
        TopicPattern::compile("a/#/b"),
        Err(PatternError::MultiWildcardNotLast)
    ));
    assert!(matches!(
        TopicPattern::compile("#/a"),
        Err(PatternError::MultiWildcardNotLast)
    ));
    assert!(matches!(
        TopicPattern::compile("a/#/"),
        Err(PatternError::MultiWildcardNotLast)
    ));
}

#[test]
fn metacharacters_in_literals_stay_literal() {
    let p = compiled("a.c/b");
    assert!(p.matches("a.c/b"));
    assert!(!p.matches("abc/b"));
    let q = compiled("x*/y");
    assert!(q.matches("x*/y"));
    assert!(!q.matches("xx/y"));
    let r = compiled("(a)|b/c");
    assert!(r.matches("(a)|b/c"));
    assert!(!r.matches("a/c"));
    let s = compiled("d$^e/f");
    assert!(s.matches("d$^e/f"));
    assert!(!s.matches("de/f"));
}

#[test]
fn wildcard_characters_inside_literals_are_not_wildcards() {
    let p = compiled("a+b/c");
    assert!(p.matches("a+b/c"));
    assert!(!p.matches("x/c"));
}

#[test]
fn topic_filter_returns_the_source_string() {
    let p = compiled("merlic/recipes/+/result");
    assert_eq!(p.topic_filter(), "merlic/recipes/+/result");
    let q = compiled("#");
    assert_eq!(q.topic_filter(), "#");
}

#[test]
fn empty_pattern_matches_empty_topic() {
    let p = compiled("");
    assert!(p.matches(""));
    assert!(!p.matches("a"));
}
