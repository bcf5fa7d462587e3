//! The rule engine: finds the first rule whose criteria a notification
//! meets, and applies that rule's overrides.

use vstd::prelude::*;
use crate::config::{
    rule_views, AppRule, AppRuleView, RuleActions, RuleActionsView, RuleCriteria,
    RuleCriteriaView,
};
use crate::notification::{HintsView, Notification, NotificationView};
use crate::text::{lowercased, str_equal, to_lowercase};
use crate::urgency::Urgency;

verus! {

/// Whether `regex::Regex::new` accepts a pattern.
pub uninterp spec fn regex_compiles(pattern: Seq<char>) -> bool;

/// Whether the regular expression that a pattern compiles to has a match
/// somewhere in a text: `regex::Regex::is_match`.
pub uninterp spec fn regex_finds(pattern: Seq<char>, text: Seq<char>) -> bool;

/// Compiles a pattern with `regex::Regex::new` and, where that succeeds,
/// searches a text with `Regex::is_match`. `None` says that the pattern is
/// no regular expression. Both outcomes depend on the two strings alone.
#[verifier::external_body]
fn regex_search(pattern: &str, text: &str) -> (r: Option<bool>)
    ensures
        r == (if regex_compiles(pattern@) {
            Some(regex_finds(pattern@, text@))
        } else {
            None
        }),
{
    match regex::Regex::new(pattern) {
        Ok(re) => Some(re.is_match(text)),
        Err(_) => None,
    }
}

/// Whether a text meets a pattern, given what searching the text with the
/// pattern as a regular expression gave: the search decides where the
/// pattern compiled, and else the two must be the same string.
pub open spec fn verdict(searched: Option<bool>, pattern: Seq<char>, text: Seq<char>) -> bool {
    match searched {
        Some(found) => found,
        None => pattern == text,
    }
}

/// Whether a text meets a pattern: as a regular expression where the
/// pattern is one, as a literal where it is not.
pub open spec fn pattern_met(pattern: Seq<char>, text: Seq<char>) -> bool {
    if regex_compiles(pattern) {
        regex_finds(pattern, text)
    } else {
        pattern == text
    }
}

/// Whether an urgency meets an urgency criterion. The criterion names a
/// level in any letter case; one that names no level is met by every
/// urgency.
pub open spec fn urgency_met(wanted: Seq<char>, urgency: Urgency) -> bool {
    match Urgency::from_name(lowercased(wanted)) {
        Some(u) => urgency == u,
        None => true,
    }
}

/// Whether a notification meets every criterion that is present.
pub open spec fn criteria_met(c: RuleCriteriaView, n: NotificationView) -> bool {
    &&& c.app_name matches Some(p) ==> pattern_met(p, n.app_name)
    &&& c.summary matches Some(p) ==> pattern_met(p, n.summary)
    &&& c.body matches Some(p) ==> pattern_met(p, n.body)
    &&& c.urgency matches Some(w) ==> urgency_met(w, n.hints.urgency)
    &&& c.category matches Some(p) ==> (n.hints.category matches Some(cat) && pattern_met(p, cat))
}

/// The index of the first rule at or after `start` whose criteria the
/// notification meets.
pub open spec fn first_match_from(rules: Seq<AppRuleView>, n: NotificationView, start: int) -> Option<int>
    decreases rules.len() - start,
{
    if start < 0 || start >= rules.len() {
        None
    } else if criteria_met(rules[start].criteria, n) {
        Some(start)
    } else {
        first_match_from(rules, n, start + 1)
    }
}

/// The index of the first rule whose criteria the notification meets.
pub open spec fn first_match(rules: Seq<AppRuleView>, n: NotificationView) -> Option<int> {
    first_match_from(rules, n, 0)
}

/// A notification after a rule's overrides: the timeout where the rule
/// gives one, the urgency where the rule names a level.
pub open spec fn with_rule_actions(n: NotificationView, a: RuleActionsView) -> NotificationView {
    let timeout = match a.timeout {
        Some(t) => t,
        None => n.expire_timeout,
    };
    let urgency = match a.urgency {
        Some(name) => match Urgency::from_name(lowercased(name)) {
            Some(u) => u,
            None => n.hints.urgency,
        },
        None => n.hints.urgency,
    };
    NotificationView { expire_timeout: timeout, hints: HintsView { urgency, ..n.hints }, ..n }
}

/// A notification after the first rule that it meets was applied; the
/// notification itself where it meets none.
pub open spec fn with_rules(n: NotificationView, rules: Seq<AppRuleView>) -> NotificationView {
    match first_match(rules, n) {
        Some(i) => with_rule_actions(n, rules[i].actions),
        None => n,
    }
}

/// Where a rule is found, it is the first one that the notification meets.
pub proof fn lemma_first_match_is_first(rules: Seq<AppRuleView>, n: NotificationView, start: int)
    requires
        0 <= start,
    ensures
        match first_match_from(rules, n, start) {
            Some(i) => start <= i < rules.len() && criteria_met(rules[i].criteria, n) && forall|j: int|
                start <= j < i ==> !criteria_met(#[trigger] rules[j].criteria, n),
            None => forall|j: int|
                start <= j < rules.len() ==> !criteria_met(#[trigger] rules[j].criteria, n),
        },
    decreases rules.len() - start,
{
    if start < rules.len() && !criteria_met(rules[start].criteria, n) {
        lemma_first_match_is_first(rules, n, start + 1);
    }
}

/// Overrides a notification's timeout and urgency as a rule's actions say.
pub fn apply_rule_actions(notification: &mut Notification, actions: &RuleActions)
    ensures
        final(notification)@ == with_rule_actions(old(notification)@, actions@),
{
    match actions.timeout {
        Some(timeout) => {
            notification.expire_timeout = timeout;
        },
        None => {},
    }
    match &actions.urgency {
        Some(name) => {
            let lowered = to_lowercase(name.as_str());
            match Urgency::parse_name(lowered.as_str()) {
                Some(u) => {
                    notification.hints.urgency = u;
                },
                None => {},
            }
        },
        None => {},
    }
}

/// Matches notifications against rules.
pub struct RuleMatcher;

impl RuleMatcher {
    /// Decides whether a text meets a pattern from what the regular
    /// expression search returned.
    pub fn pattern_verdict(searched: Option<bool>, pattern: &str, text: &str) -> (r: bool)
        ensures
            r == verdict(searched, pattern@, text@),
    {
        match searched {
            Some(found) => found,
            None => str_equal(pattern, text),
        }
    }

    /// Whether a text meets a pattern.
    pub fn matches_pattern(pattern: &str, text: &str) -> (r: bool)
        ensures
            r == pattern_met(pattern@, text@),
    {
        let searched = regex_search(pattern, text);
        RuleMatcher::pattern_verdict(searched, pattern, text)
    }

    /// Decides whether an urgency meets a criterion from the criterion's
    /// lower-case form.
    pub fn urgency_verdict(lowered: &str, urgency: Urgency) -> (r: bool)
        ensures
            r == match Urgency::from_name(lowered@) {
                Some(u) => urgency == u,
                None => true,
            },
    {
        match Urgency::parse_name(lowered) {
            Some(u) => urgency == u,
            None => true,
        }
    }

    /// Whether a notification meets every criterion that is present.
    pub fn matches(criteria: &RuleCriteria, notification: &Notification) -> (r: bool)
        ensures
            r == criteria_met(criteria@, notification@),
    {
        match &criteria.app_name {
            Some(pattern) => {
                if !RuleMatcher::matches_pattern(pattern.as_str(), notification.app_name.as_str()) {
                    return false;
                }
            },
            None => {},
        }
        match &criteria.summary {
            Some(pattern) => {
                if !RuleMatcher::matches_pattern(pattern.as_str(), notification.summary.as_str()) {
                    return false;
                }
            },
            None => {},
        }
        match &criteria.body {
            Some(pattern) => {
                if !RuleMatcher::matches_pattern(pattern.as_str(), notification.body.as_str()) {
                    return false;
                }
            },
            None => {},
        }
        match &criteria.urgency {
            Some(wanted) => {
                let lowered = to_lowercase(wanted.as_str());
                if !RuleMatcher::urgency_verdict(lowered.as_str(), notification.hints.urgency) {
                    return false;
                }
            },
            None => {},
        }
        match &criteria.category {
            Some(pattern) => {
                match &notification.hints.category {
                    Some(category) => {
                        if !RuleMatcher::matches_pattern(pattern.as_str(), category.as_str()) {
                            return false;
                        }
                    },
                    None => {
                        return false;
                    },
                }
            },
            None => {},
        }
        true
    }

    /// The position of the first rule that a notification meets.
    pub fn find_matching_index(notification: &Notification, rules: &[AppRule]) -> (r: Option<usize>)
        ensures
            match r {
                Some(i) => i < rules.len() && first_match(rule_views(rules@), notification@)
                    == Some(i as int),
                None => first_match(rule_views(rules@), notification@) is None,
            },
    {
        let mut i: usize = 0;
        while i < rules.len()
            invariant
                0 <= i <= rules.len(),
                first_match(rule_views(rules@), notification@) == first_match_from(
                    rule_views(rules@),
                    notification@,
                    i as int,
                ),
            decreases rules.len() - i,
        {
            if RuleMatcher::matches(&rules[i].criteria, notification) {
                return Some(i);
            }
            i += 1;
        }
        None
    }

    /// The first rule that a notification meets.
    pub fn find_matching_rule<'a>(notification: &Notification, rules: &'a [AppRule]) -> (r: Option<
        &'a AppRule,
    >)
        ensures
            match r {
                Some(rule) => first_match(rule_views(rules@), notification@) matches Some(i)
                    && *rule == rules@[i],
                None => first_match(rule_views(rules@), notification@) is None,
            },
    {
        match RuleMatcher::find_matching_index(notification, rules) {
            Some(i) => Some(&rules[i]),
            None => None,
        }
    }

    /// Applies to a notification the first rule that it meets, if any.
    pub fn apply_rules(notification: &mut Notification, rules: &[AppRule])
        ensures
            final(notification)@ == with_rules(old(notification)@, rule_views(rules@)),
    {
        match RuleMatcher::find_matching_index(notification, rules) {
            Some(i) => {
                apply_rule_actions(notification, &rules[i].actions);
            },
            None => {},
        }
    }
}

} // verus!
