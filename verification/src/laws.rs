//! What holds of every rule set and every request.

use vstd::prelude::*;

use crate::engine::{
    decide, decision_of_rule, decision_without_rule, governing_rule, governs,
    lemma_governing_rule_unique, lemma_ungoverned_has_no_rule, ungoverned,
};
use crate::network::{
    default_cidr_spec, lemma_empty_prefix_contains_family, networks_admit, Cidr, IpAddress,
};
use crate::pattern::{default_host_spec, pattern_matches};
use crate::port::{ports_admit, PortRange};
use crate::request::{DecisionModel, DenyReason, Direction, Outcome, RequestModel};
use crate::types::{
    AllowModel, AllowReverseTunnelModel, AllowTunnelModel, MatchModel, RuleModel,
};

verus! {

/// Whether `decision` is what the evaluator's rules ask for: either it names a
/// rule, that rule governs the request, and the outcome and name are that
/// rule's; or it names none, no rule matches, and the request is denied for
/// want of a rule.
pub open spec fn is_decision_for(
    rules: Seq<RuleModel>,
    request: RequestModel,
    decision: DecisionModel,
) -> bool {
    match decision.rule {
        Some(i) => governs(rules, request.path, i) && decision == decision_of_rule(
            rules[i],
            i,
            request,
        ),
        None => ungoverned(rules, request.path) && decision == decision_without_rule(),
    }
}

/// Evaluation is a function of the rule set and the request: any two decisions
/// on the same pair agree in outcome, in governing rule and in its name.
pub proof fn lemma_evaluation_is_deterministic(
    rules: Seq<RuleModel>,
    request: RequestModel,
    first: DecisionModel,
    second: DecisionModel,
)
    requires
        is_decision_for(rules, request, first),
        is_decision_for(rules, request, second),
    ensures
        first == second,
        first == decide(rules, request),
{
    lemma_decision_is_unique(rules, request, first);
    lemma_decision_is_unique(rules, request, second);
}

/// The decision of a rule set on a request is the one decision that the
/// evaluator's rules ask for.
pub proof fn lemma_decision_is_unique(
    rules: Seq<RuleModel>,
    request: RequestModel,
    decision: DecisionModel,
)
    ensures
        is_decision_for(rules, request, decision) <==> decision == decide(rules, request),
{
    if is_decision_for(rules, request, decision) {
        match decision.rule {
            Some(i) => {
                lemma_governing_rule_unique(rules, request.path, i);
            },
            None => {
                lemma_ungoverned_has_no_rule(rules, request.path);
            },
        }
    }
    if decision == decide(rules, request) {
        match governing_rule(rules, request.path) {
            Some(i) => {
                assert(governs(rules, request.path, i));
            },
            None => {
                assert forall|i: int| 0 <= i < rules.len() implies !(#[trigger] rules[i]).matches(
                    request.path,
                ) by {
                    if rules[i].matches(request.path) {
                        lemma_some_rule_governs(rules, request.path, i);
                    }
                }
            },
        }
    }
}

/// Where some rule matches, some rule governs: the first that matches.
pub proof fn lemma_some_rule_governs(rules: Seq<RuleModel>, path: Seq<char>, i: int)
    requires
        0 <= i < rules.len(),
        rules[i].matches(path),
    ensures
        exists|g: int| 0 <= g <= i && governs(rules, path, g),
    decreases i,
{
    if exists|j: int| 0 <= j < i && (#[trigger] rules[j]).matches(path) {
        let j = choose|j: int| 0 <= j < i && (#[trigger] rules[j]).matches(path);
        lemma_some_rule_governs(rules, path, j);
    } else {
        assert(governs(rules, path, i));
    }
}

/// The first matching rule wins. Where two rules match a request, the later
/// one never governs it, and the decision stays the same whatever the later
/// rule permits. Where no rule before the earlier one matches, the decision is
/// the earlier rule's.
pub proof fn lemma_first_match_precedence(
    rules: Seq<RuleModel>,
    request: RequestModel,
    earlier: int,
    later: int,
    other_allow: Seq<AllowModel>,
)
    requires
        0 <= earlier < later < rules.len(),
        rules[earlier].matches(request.path),
        rules[later].matches(request.path),
    ensures
        decide(rules, request).rule is Some,
        decide(rules, request).rule->0 <= earlier,
        decide(
            rules.update(later, RuleModel { allow: other_allow, ..rules[later] }),
            request,
        ) == decide(rules, request),
        (forall|k: int| 0 <= k < earlier ==> !(#[trigger] rules[k]).matches(request.path))
            ==> decide(rules, request) == decision_of_rule(rules[earlier], earlier, request),
{
    let path = request.path;
    lemma_some_rule_governs(rules, path, earlier);
    let g = choose|g: int| 0 <= g <= earlier && governs(rules, path, g);
    lemma_governing_rule_unique(rules, path, g);
    let changed = rules.update(later, RuleModel { allow: other_allow, ..rules[later] });
    assert(governs(changed, path, g)) by {
        assert(changed[g] == rules[g]);
        assert forall|j: int| 0 <= j < g implies !(#[trigger] changed[j]).matches(path) by {
            assert(changed[j] == rules[j]);
        }
    }
    lemma_governing_rule_unique(changed, path, g);
    if forall|k: int| 0 <= k < earlier ==> !(#[trigger] rules[k]).matches(path) {
        assert(g == earlier);
    }
}

/// A forward permission that names nothing admits a request of any protocol,
/// port and address, IPv4 or IPv6, if it is a forward request and the default
/// host pattern matches its host; it admits no other request.
pub proof fn lemma_unrestricted_forward_permission(request: RequestModel)
    ensures
        AllowTunnelModel::unrestricted().admits(request) <==> request.direction
            == Direction::Forward && pattern_matches(default_host_spec(), request.host),
{
    lemma_default_networks_admit_all(request.address);
}

/// A reverse permission that names nothing admits a request of any protocol,
/// port and address, IPv4 or IPv6, if it is a reverse request; it admits no
/// other request.
pub proof fn lemma_unrestricted_reverse_permission(request: RequestModel)
    ensures
        AllowReverseTunnelModel::unrestricted().admits(request) <==> request.direction
            == Direction::Reverse,
{
    lemma_default_networks_admit_all(request.address);
}

/// The default networks admit every address, IPv4 or IPv6.
pub proof fn lemma_default_networks_admit_all(address: IpAddress)
    ensures
        networks_admit(default_cidr_spec(), address),
{
    lemma_empty_prefix_contains_family(address);
    let nets = default_cidr_spec();
    match address {
        IpAddress::V4(_) => {
            assert(nets[0].spec_contains(address));
        },
        IpAddress::V6(_) => {
            assert(nets[1].spec_contains(address));
        },
    }
}

/// A list of one range admits the ports from its low end to its high end, both
/// included, and no other.
pub proof fn lemma_port_range_bounds(range: PortRange, port: u16)
    ensures
        ports_admit(seq![range], port) <==> range.low <= port <= range.high,
{
    let ranges = seq![range];
    assert(ranges[0] == range);
    if range.low <= port <= range.high {
        assert(ranges[0].spec_contains(port));
    }
}

/// A list of one range admits both ends of the range, and neither the port
/// below its low end nor the port above its high end.
pub proof fn lemma_port_range_ends(range: PortRange)
    requires
        range.low <= range.high,
    ensures
        ports_admit(seq![range], range.low),
        ports_admit(seq![range], range.high),
        range.low > 0 ==> !ports_admit(seq![range], (range.low - 1) as u16),
        range.high < u16::MAX ==> !ports_admit(seq![range], (range.high + 1) as u16),
{
    lemma_port_range_bounds(range, range.low);
    lemma_port_range_bounds(range, range.high);
    if range.low > 0 {
        lemma_port_range_bounds(range, (range.low - 1) as u16);
    }
    if range.high < u16::MAX {
        lemma_port_range_bounds(range, (range.high + 1) as u16);
    }
}

/// Address families are kept apart: a list that holds networks, all of one
/// family, admits no address of the other family.
pub proof fn lemma_family_separation(nets: Seq<Cidr>, address: IpAddress)
    requires
        nets.len() > 0,
    ensures
        (forall|i: int| 0 <= i < nets.len() ==> #[trigger] nets[i] is V4) && address is V6
            ==> !networks_admit(nets, address),
        (forall|i: int| 0 <= i < nets.len() ==> #[trigger] nets[i] is V6) && address is V4
            ==> !networks_admit(nets, address),
{
}

/// Directions are kept apart: a reverse permission admits no forward request,
/// and a forward permission no reverse request. So the permissions of the
/// other direction can be taken out of a rule without changing what it admits.
pub proof fn lemma_direction_isolation(rule: RuleModel, request: RequestModel)
    ensures
        forall|i: int|
            0 <= i < rule.allow.len() && (#[trigger] rule.allow[i]) is ReverseTunnel
                && request.direction == Direction::Forward ==> !rule.allow[i].admits(request),
        forall|i: int|
            0 <= i < rule.allow.len() && (#[trigger] rule.allow[i]) is Tunnel && request.direction
                == Direction::Reverse ==> !rule.allow[i].admits(request),
        rule.admits(request) <==> (RuleModel {
            allow: rule.allow.filter(|allow: AllowModel| serves(allow, request.direction)),
            ..rule
        }).admits(request),
{
    let keep = |allow: AllowModel| serves(allow, request.direction);
    let kept = rule.allow.filter(keep);
    let filtered = RuleModel { allow: kept, ..rule };
    if rule.admits(request) {
        let i = choose|i: int| 0 <= i < rule.allow.len() && (#[trigger] rule.allow[i]).admits(request);
        assert(keep(rule.allow[i]));
        rule.allow.lemma_filter_contains(keep, i);
        let j = choose|j: int| 0 <= j < kept.len() && kept[j] == rule.allow[i];
        assert(filtered.allow[j].admits(request));
    }
    if filtered.admits(request) {
        let j = choose|j: int| 0 <= j < kept.len() && (#[trigger] kept[j]).admits(request);
        assert(kept.contains(kept[j]));
        rule.allow.lemma_filter_contains_rev(keep, kept[j]);
        let i = choose|i: int| 0 <= i < rule.allow.len() && rule.allow[i] == kept[j];
        assert(rule.allow[i].admits(request));
    }
}

/// Whether a permission is for tunnels of this direction.
pub open spec fn serves(allow: AllowModel, direction: Direction) -> bool {
    match allow {
        AllowModel::Tunnel(_) => direction == Direction::Forward,
        AllowModel::ReverseTunnel(_) => direction == Direction::Reverse,
    }
}

/// A rule that governs a request and permits nothing denies it, and still
/// counts as the rule that governed it.
pub proof fn lemma_empty_allow_denies(rules: Seq<RuleModel>, request: RequestModel, i: int)
    requires
        governs(rules, request.path, i),
        rules[i].allow.len() == 0,
    ensures
        decide(rules, request) == (DecisionModel {
            outcome: Outcome::Deny(DenyReason::NoAllowRuleMatched),
            rule: Some(i),
            rule_name: Some(rules[i].name),
        }),
{
    lemma_governing_rule_unique(rules, request.path, i);
}

/// A rule set of one rule that matches everything and permits nothing denies
/// every request under that rule's name.
pub proof fn lemma_catch_all_without_allow_denies(name: Seq<char>, request: RequestModel)
    ensures
        decide(seq![RuleModel { name, matchers: seq![MatchModel::Any], allow: seq![] }], request)
            == (DecisionModel {
            outcome: Outcome::Deny(DenyReason::NoAllowRuleMatched),
            rule: Some(0int),
            rule_name: Some(name),
        }),
{
    let rule = RuleModel { name, matchers: seq![MatchModel::Any], allow: seq![] };
    let rules = seq![rule];
    assert(rule.matchers[0].accepts(request.path));
    assert(rules[0] == rule);
    assert(governs(rules, request.path, 0));
    lemma_empty_allow_denies(rules, request, 0);
}

/// The empty rule set denies every request, for want of a matching rule.
pub proof fn lemma_empty_rule_set_denies(request: RequestModel)
    ensures
        decide(Seq::<RuleModel>::empty(), request) == decision_without_rule(),
        decision_without_rule().outcome == Outcome::Deny(DenyReason::NoMatchingRule),
{
    lemma_ungoverned_has_no_rule(Seq::<RuleModel>::empty(), request.path);
}

} // verus!
