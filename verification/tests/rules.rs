use swaynoti::config::{AppRule, RuleActions, RuleCriteria};
use swaynoti::notification::{Notification, NotificationHints};
use swaynoti::rules::{apply_rule_actions, RuleMatcher};
use swaynoti::urgency::Urgency;

fn notification(app: &str, summary: &str, body: &str, urgency: Urgency, category: Option<&str>) -> Notification {
    let mut hints = NotificationHints::default();
    hints.urgency = urgency;
    hints.category = category.map(|c| c.to_string());
    Notification::at(
        1,
        app.to_string(),
        0,
        String::new(),
        summary.to_string(),
        body.to_string(),
        Vec::new(),
        hints,
        -1,
        0,
    )
}

fn rule(criteria: RuleCriteria, actions: RuleActions) -> AppRule {
    AppRule { criteria, actions }
}

#[test]
fn pattern_is_searched_as_regular_expression() {
    assert!(RuleMatcher::matches_pattern("^fire.*", "firefox"));
    assert!(RuleMatcher::matches_pattern("fox$", "firefox"));
    assert!(RuleMatcher::matches_pattern("ref", "firefox"));
    assert!(RuleMatcher::matches_pattern("f.r.f", "firefox"));
    assert!(!RuleMatcher::matches_pattern("^fox", "firefox"));
    assert!(!RuleMatcher::matches_pattern("Firefox", "firefox"));
    assert!(RuleMatcher::matches_pattern("", "anything"));
}

#[test]
fn broken_pattern_falls_back_to_equality() {
    assert!(RuleMatcher::matches_pattern("[", "["));
    assert!(!RuleMatcher::matches_pattern("[", "a[b"));
    assert!(RuleMatcher::matches_pattern("(unclosed", "(unclosed"));
    assert!(!RuleMatcher::matches_pattern("(unclosed", "unclosed"));
}

#[test]
fn verdict_follows_the_search_or_compares() {
    assert!(RuleMatcher::pattern_verdict(Some(true), "a", "b"));
    assert!(!RuleMatcher::pattern_verdict(Some(false), "a", "a"));
    assert!(RuleMatcher::pattern_verdict(None, "a", "a"));
    assert!(!RuleMatcher::pattern_verdict(None, "a", "b"));
}

#[test]
fn urgency_verdict_reads_lower_case_names() {
    assert!(RuleMatcher::urgency_verdict("low", Urgency::Low));
    assert!(!RuleMatcher::urgency_verdict("low", Urgency::Normal));
    assert!(RuleMatcher::urgency_verdict("normal", Urgency::Normal));
    assert!(RuleMatcher::urgency_verdict("critical", Urgency::Critical));
    assert!(!RuleMatcher::urgency_verdict("critical", Urgency::Low));
    assert!(RuleMatcher::urgency_verdict("urgent", Urgency::Low));
    assert!(RuleMatcher::urgency_verdict("LOW", Urgency::Critical));
    assert!(RuleMatcher::urgency_verdict("", Urgency::Normal));
}

#[test]
fn empty_criteria_match_everything() {
    let n = notification("app", "s", "b", Urgency::Low, None);
    assert!(RuleMatcher::matches(&RuleCriteria::default(), &n));
}

#[test]
fn every_present_criterion_must_match() {
    let n = notification("firefox", "Download done", "file.zip", Urgency::Normal, Some("transfer"));
    let mut c = RuleCriteria::default();
    c.app_name = Some("^firefox$".to_string());
    c.summary = Some("Download".to_string());
    c.body = Some("\\.zip$".to_string());
    c.urgency = Some("Normal".to_string());
    c.category = Some("transfer".to_string());
    assert!(RuleMatcher::matches(&c, &n));
    c.body = Some("\\.tar$".to_string());
    assert!(!RuleMatcher::matches(&c, &n));
    c.body = None;
    c.urgency = Some("CRITICAL".to_string());
    assert!(!RuleMatcher::matches(&c, &n));
    c.urgency = Some("whatever".to_string());
    assert!(RuleMatcher::matches(&c, &n));
}

#[test]
fn category_criterion_needs_a_category() {
    let mut c = RuleCriteria::default();
    c.category = Some(".*".to_string());
    assert!(!RuleMatcher::matches(&c, &notification("a", "s", "b", Urgency::Normal, None)));
    assert!(RuleMatcher::matches(&c, &notification("a", "s", "b", Urgency::Normal, Some("im"))));
}

#[test]
fn first_matching_rule_is_found() {
    let mut a = RuleCriteria::default();
    a.app_name = Some("slack".to_string());
    let mut b = RuleCriteria::default();
    b.app_name = Some("fire".to_string());
    let mut c = RuleCriteria::default();
    c.summary = Some("Download".to_string());
    let mut first = RuleActions::default();
    first.timeout = Some(1);
    let mut second = RuleActions::default();
    second.timeout = Some(2);
    let mut third = RuleActions::default();
    third.timeout = Some(3);
    let rules = vec![rule(a, first), rule(b, second), rule(c, third)];
    let n = notification("firefox", "Download done", "", Urgency::Normal, None);
    assert_eq!(RuleMatcher::find_matching_index(&n, &rules), Some(1));
    assert_eq!(RuleMatcher::find_matching_rule(&n, &rules).unwrap().actions.timeout, Some(2));
    let other = notification("mail", "Download", "", Urgency::Normal, None);
    assert_eq!(RuleMatcher::find_matching_index(&other, &rules), Some(2));
    let none = notification("mail", "Hi", "", Urgency::Normal, None);
    assert_eq!(RuleMatcher::find_matching_index(&none, &rules), None);
    assert!(RuleMatcher::find_matching_rule(&none, &rules).is_none());
    assert!(RuleMatcher::find_matching_rule(&n, &[]).is_none());
}

#[test]
fn actions_override_timeout_and_urgency() {
    let mut n = notification("a", "s", "b", Urgency::Low, None);
    let mut actions = RuleActions::default();
    actions.timeout = Some(1234);
    actions.urgency = Some("CRITICAL".to_string());
    actions.skip_history = Some(true);
    apply_rule_actions(&mut n, &actions);
    assert_eq!(n.expire_timeout, 1234);
    assert_eq!(n.hints.urgency, Urgency::Critical);
    assert_eq!(n.app_name, "a");
    assert!(!n.hints.transient);
}

#[test]
fn unknown_urgency_name_changes_nothing() {
    let mut n = notification("a", "s", "b", Urgency::Low, None);
    let mut actions = RuleActions::default();
    actions.urgency = Some("loud".to_string());
    apply_rule_actions(&mut n, &actions);
    assert_eq!(n.hints.urgency, Urgency::Low);
    assert_eq!(n.expire_timeout, -1);
    apply_rule_actions(&mut n, &RuleActions::default());
    assert_eq!(n.hints.urgency, Urgency::Low);
    assert_eq!(n.expire_timeout, -1);
}

#[test]
fn rules_are_applied_to_the_first_match_only() {
    let mut a = RuleCriteria::default();
    a.app_name = Some("mail".to_string());
    let mut first = RuleActions::default();
    first.urgency = Some("Low".to_string());
    let mut second = RuleActions::default();
    second.timeout = Some(9);
    let rules = vec![rule(a, first), rule(RuleCriteria::default(), second)];
    let mut n = notification("mail", "s", "b", Urgency::Normal, None);
    RuleMatcher::apply_rules(&mut n, &rules);
    assert_eq!(n.hints.urgency, Urgency::Low);
    assert_eq!(n.expire_timeout, -1);
    let mut other = notification("chat", "s", "b", Urgency::Normal, None);
    RuleMatcher::apply_rules(&mut other, &rules);
    assert_eq!(other.hints.urgency, Urgency::Normal);
    assert_eq!(other.expire_timeout, 9);
}
