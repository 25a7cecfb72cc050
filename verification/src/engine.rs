//! The evaluator: from a rule set and a request to a decision.

use vstd::prelude::*;

use crate::request::{Decision, DecisionModel, DenyReason, Outcome, RequestModel, TunnelRequest};
use crate::types::{RestrictionsRules, RuleModel};

verus! {

/// Whether rule `i` governs requests with this path: it matches, and no rule
/// before it does.
pub open spec fn governs(rules: Seq<RuleModel>, path: Seq<char>, i: int) -> bool {
    &&& 0 <= i < rules.len()
    &&& rules[i].matches(path)
    &&& forall|j: int| 0 <= j < i ==> !(#[trigger] rules[j]).matches(path)
}

/// Whether no rule matches requests with this path.
pub open spec fn ungoverned(rules: Seq<RuleModel>, path: Seq<char>) -> bool {
    forall|i: int| 0 <= i < rules.len() ==> !(#[trigger] rules[i]).matches(path)
}

/// The position of the rule that governs requests with this path, if any.
pub open spec fn governing_rule(rules: Seq<RuleModel>, path: Seq<char>) -> Option<int> {
    if exists|i: int| governs(rules, path, i) {
        Some(choose|i: int| governs(rules, path, i))
    } else {
        None
    }
}

/// What the rule at position `i` decides on a request that it governs: the
/// request is allowed if one of the rule's permissions admits it, and denied
/// otherwise.
pub open spec fn decision_of_rule(rule: RuleModel, i: int, request: RequestModel) -> DecisionModel {
    DecisionModel {
        outcome: if rule.admits(request) {
            Outcome::Allow
        } else {
            Outcome::Deny(DenyReason::NoAllowRuleMatched)
        },
        rule: Some(i),
        rule_name: Some(rule.name),
    }
}

/// The decision on a request that no rule governs.
pub open spec fn decision_without_rule() -> DecisionModel {
    DecisionModel {
        outcome: Outcome::Deny(DenyReason::NoMatchingRule),
        rule: None,
        rule_name: None,
    }
}

/// The decision of a rule set on a request.
pub open spec fn decide(rules: Seq<RuleModel>, request: RequestModel) -> DecisionModel {
    match governing_rule(rules, request.path) {
        Some(i) => decision_of_rule(rules[i], i, request),
        None => decision_without_rule(),
    }
}

/// At most one rule governs a path, and `governing_rule` names it.
pub proof fn lemma_governing_rule_unique(rules: Seq<RuleModel>, path: Seq<char>, i: int)
    requires
        governs(rules, path, i),
    ensures
        governing_rule(rules, path) == Some(i),
{
    let chosen = choose|k: int| governs(rules, path, k);
    assert(governs(rules, path, chosen));
    if chosen < i {
        assert(!rules[chosen].matches(path));
    } else if i < chosen {
        assert(!rules[i].matches(path));
    }
}

/// Where no rule matches, no rule governs.
pub proof fn lemma_ungoverned_has_no_rule(rules: Seq<RuleModel>, path: Seq<char>)
    requires
        ungoverned(rules, path),
    ensures
        governing_rule(rules, path) is None,
{
    if exists|i: int| governs(rules, path, i) {
        let i = choose|i: int| governs(rules, path, i);
        assert(!rules[i].matches(path));
    }
}

impl RestrictionsRules {
    /// Finds the rule that governs requests with this path: the first one that
    /// matches.
    pub fn governing_rule(&self, path: &str) -> (found: Option<usize>)
        ensures
            match found {
                Some(i) => governs(self@, path@, i as int),
                None => ungoverned(self@, path@),
            },
            (match found {
                Some(i) => Some(i as int),
                None => None,
            }) == governing_rule(self@, path@),
    {
        let mut i: usize = 0;
        while i < self.restrictions.len()
            invariant
                i <= self.restrictions.len(),
                self@.len() == self.restrictions.len(),
                forall|k: int| 0 <= k < i ==> !(#[trigger] self@[k]).matches(path@),
            decreases self.restrictions.len() - i,
        {
            assert(self@[i as int] == self.restrictions@[i as int]@);
            if self.restrictions[i].matches(path) {
                proof {
                    lemma_governing_rule_unique(self@, path@, i as int);
                }
                return Some(i);
            }
            i += 1;
        }
        proof {
            lemma_ungoverned_has_no_rule(self@, path@);
        }
        None
    }

    /// Decides on a request. The first rule that matches the request's path
    /// governs it, whatever later rules say; the request is allowed if one of
    /// that rule's permissions admits it.
    pub fn evaluate(&self, request: &TunnelRequest) -> (decision: Decision)
        ensures
            decision@ == decide(self@, request@),
    {
        match self.governing_rule(request.path.as_str()) {
            Some(i) => {
                let rule = &self.restrictions[i];
                assert(self@[i as int] == rule@);
                let outcome = if rule.admits(request) {
                    Outcome::Allow
                } else {
                    Outcome::Deny(DenyReason::NoAllowRuleMatched)
                };
                Decision { outcome, rule: Some(i), rule_name: Some(rule.name.clone()) }
            },
            None => Decision {
                outcome: Outcome::Deny(DenyReason::NoMatchingRule),
                rule: None,
                rule_name: None,
            },
        }
    }
}

} // verus!
