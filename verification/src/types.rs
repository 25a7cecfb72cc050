//! The rule set: named rules, their match predicates and their permissions.
//!
//! Each type comes with its mathematical model, reached by `@`, and the
//! predicates of the policy are stated on the models.

use vstd::prelude::*;

use crate::network::{address_allowed, default_cidr, default_cidr_spec, networks_admit, Cidr};
use crate::pattern::{
    default_host, default_host_spec, host_matches, path_prefix_matches, pattern_matches,
    pattern_matches_prefix,
};
use crate::port::{port_allowed, ports_admit, PortRange};
use crate::protocol::{
    classify_for_forward, classify_for_reverse, ReverseTunnelConfigProtocol, TunnelConfigProtocol,
};
use crate::request::{Direction, RequestModel, TunnelRequest};

verus! {

/// The ordered rules of a policy. The first rule that matches a request governs
/// it.
#[derive(Clone, Debug)]
pub struct RestrictionsRules {
    pub restrictions: Vec<RestrictionConfig>,
}

/// One named rule: the requests it governs, and what it permits them.
#[derive(Clone, Debug)]
pub struct RestrictionConfig {
    /// For the operator's eyes; rules are told apart by position, not by name.
    pub name: String,
    /// The rule governs a request that any one of these accepts.
    pub matchers: Vec<MatchConfig>,
    /// The rule admits a request that any one of these admits. An empty list
    /// admits nothing.
    pub allow: Vec<AllowConfig>,
}

/// A predicate on the path of a request.
#[derive(Clone, Debug)]
pub enum MatchConfig {
    /// Accepts every path.
    Any,
    /// Accepts the paths that begin with a match of this regular expression.
    PathPrefix(String),
}

/// One permission, for one direction of tunnel.
#[derive(Clone, Debug)]
pub enum AllowConfig {
    ReverseTunnel(AllowReverseTunnelConfig),
    Tunnel(AllowTunnelConfig),
}

/// A permission for forward tunnels. An empty list leaves its dimension open:
/// no protocols means any protocol, no ports any port, no networks any address.
#[derive(Clone, Debug)]
pub struct AllowTunnelConfig {
    pub protocol: Vec<TunnelConfigProtocol>,
    pub port: Vec<PortRange>,
    /// A regular expression that has to match somewhere in the destination host.
    pub host: String,
    pub cidr: Vec<Cidr>,
}

/// A permission for reverse tunnels. An empty list leaves its dimension open,
/// as in a forward permission. There is no host pattern: reverse tunnels are
/// policed by the peer's address.
#[derive(Clone, Debug)]
pub struct AllowReverseTunnelConfig {
    pub protocol: Vec<ReverseTunnelConfigProtocol>,
    pub port: Vec<PortRange>,
    pub cidr: Vec<Cidr>,
}

pub enum MatchModel {
    Any,
    PathPrefix(Seq<char>),
}

pub struct AllowTunnelModel {
    pub protocol: Seq<TunnelConfigProtocol>,
    pub port: Seq<PortRange>,
    pub host: Seq<char>,
    pub cidr: Seq<Cidr>,
}

pub struct AllowReverseTunnelModel {
    pub protocol: Seq<ReverseTunnelConfigProtocol>,
    pub port: Seq<PortRange>,
    pub cidr: Seq<Cidr>,
}

pub enum AllowModel {
    ReverseTunnel(AllowReverseTunnelModel),
    Tunnel(AllowTunnelModel),
}

pub struct RuleModel {
    pub name: Seq<char>,
    pub matchers: Seq<MatchModel>,
    pub allow: Seq<AllowModel>,
}

impl View for MatchConfig {
    type V = MatchModel;

    open spec fn view(&self) -> MatchModel {
        match self {
            MatchConfig::Any => MatchModel::Any,
            MatchConfig::PathPrefix(pattern) => MatchModel::PathPrefix(pattern@),
        }
    }
}

impl View for AllowTunnelConfig {
    type V = AllowTunnelModel;

    open spec fn view(&self) -> AllowTunnelModel {
        AllowTunnelModel {
            protocol: self.protocol@,
            port: self.port@,
            host: self.host@,
            cidr: self.cidr@,
        }
    }
}

impl View for AllowReverseTunnelConfig {
    type V = AllowReverseTunnelModel;

    open spec fn view(&self) -> AllowReverseTunnelModel {
        AllowReverseTunnelModel { protocol: self.protocol@, port: self.port@, cidr: self.cidr@ }
    }
}

impl View for AllowConfig {
    type V = AllowModel;

    open spec fn view(&self) -> AllowModel {
        match self {
            AllowConfig::ReverseTunnel(allow) => AllowModel::ReverseTunnel(allow@),
            AllowConfig::Tunnel(allow) => AllowModel::Tunnel(allow@),
        }
    }
}

impl View for RestrictionConfig {
    type V = RuleModel;

    open spec fn view(&self) -> RuleModel {
        RuleModel {
            name: self.name@,
            matchers: self.matchers@.map_values(|m: MatchConfig| m@),
            allow: self.allow@.map_values(|a: AllowConfig| a@),
        }
    }
}

impl View for RestrictionsRules {
    type V = Seq<RuleModel>;

    open spec fn view(&self) -> Seq<RuleModel> {
        self.restrictions@.map_values(|r: RestrictionConfig| r@)
    }
}

/// Whether a list of protocol tags admits `tag`: an empty list admits every
/// tag, any other list admits the tags it names.
pub open spec fn protocols_admit<P>(protocols: Seq<P>, tag: P) -> bool {
    protocols.len() == 0 || protocols.contains(tag)
}

impl MatchModel {
    /// Whether the predicate accepts a request with this path.
    pub open spec fn accepts(self, path: Seq<char>) -> bool {
        match self {
            MatchModel::Any => true,
            MatchModel::PathPrefix(pattern) => pattern_matches_prefix(pattern, path),
        }
    }
}

impl AllowTunnelModel {
    /// The permission that names nothing.
    pub open spec fn unrestricted() -> AllowTunnelModel {
        AllowTunnelModel {
            protocol: Seq::empty(),
            port: Seq::empty(),
            host: default_host_spec(),
            cidr: default_cidr_spec(),
        }
    }

    /// Whether the permission admits the request, given whether its host
    /// pattern matched the request's host: a forward request that the
    /// permission covers in protocol, port, host and address.
    pub open spec fn admits_given(self, request: RequestModel, host_matched: bool) -> bool {
        &&& request.direction == Direction::Forward
        &&& protocols_admit(self.protocol, classify_for_forward(request.protocol))
        &&& ports_admit(self.port, request.port)
        &&& host_matched
        &&& networks_admit(self.cidr, request.address)
    }

    pub open spec fn admits(self, request: RequestModel) -> bool {
        self.admits_given(request, pattern_matches(self.host, request.host))
    }
}

impl AllowReverseTunnelModel {
    /// The permission that names nothing.
    pub open spec fn unrestricted() -> AllowReverseTunnelModel {
        AllowReverseTunnelModel {
            protocol: Seq::empty(),
            port: Seq::empty(),
            cidr: default_cidr_spec(),
        }
    }

    /// Whether the permission admits the request: a reverse request that the
    /// permission covers in protocol, port and address.
    pub open spec fn admits(self, request: RequestModel) -> bool {
        &&& request.direction == Direction::Reverse
        &&& protocols_admit(self.protocol, classify_for_reverse(request.protocol))
        &&& ports_admit(self.port, request.port)
        &&& networks_admit(self.cidr, request.address)
    }
}

impl AllowModel {
    pub open spec fn admits(self, request: RequestModel) -> bool {
        match self {
            AllowModel::ReverseTunnel(allow) => allow.admits(request),
            AllowModel::Tunnel(allow) => allow.admits(request),
        }
    }
}

impl RuleModel {
    /// Whether the rule governs requests with this path: one of its match
    /// predicates accepts it.
    pub open spec fn matches(self, path: Seq<char>) -> bool {
        exists|i: int| 0 <= i < self.matchers.len() && (#[trigger] self.matchers[i]).accepts(path)
    }

    /// Whether one of the rule's permissions admits the request.
    pub open spec fn admits(self, request: RequestModel) -> bool {
        exists|i: int| 0 <= i < self.allow.len() && (#[trigger] self.allow[i]).admits(request)
    }
}

fn forward_protocol_allowed(
    protocols: &Vec<TunnelConfigProtocol>,
    tag: TunnelConfigProtocol,
) -> (admitted: bool)
    ensures
        admitted == protocols_admit(protocols@, tag),
{
    if protocols.len() == 0 {
        return true;
    }
    let mut i: usize = 0;
    while i < protocols.len()
        invariant
            i <= protocols.len(),
            forall|k: int| 0 <= k < i ==> protocols@[k] != tag,
        decreases protocols.len() - i,
    {
        if protocols[i] == tag {
            return true;
        }
        i += 1;
    }
    false
}

fn reverse_protocol_allowed(
    protocols: &Vec<ReverseTunnelConfigProtocol>,
    tag: ReverseTunnelConfigProtocol,
) -> (admitted: bool)
    ensures
        admitted == protocols_admit(protocols@, tag),
{
    if protocols.len() == 0 {
        return true;
    }
    let mut i: usize = 0;
    while i < protocols.len()
        invariant
            i <= protocols.len(),
            forall|k: int| 0 <= k < i ==> protocols@[k] != tag,
        decreases protocols.len() - i,
    {
        if protocols[i] == tag {
            return true;
        }
        i += 1;
    }
    false
}

impl MatchConfig {
    pub fn accepts(&self, path: &str) -> (accepted: bool)
        ensures
            accepted == self@.accepts(path@),
    {
        match self {
            MatchConfig::Any => true,
            MatchConfig::PathPrefix(pattern) => path_prefix_matches(pattern.as_str(), path),
        }
    }
}

impl Default for AllowTunnelConfig {
    /// The permission of a configuration entry that names nothing: every
    /// protocol, every port, every host the default pattern matches, and every
    /// address.
    fn default() -> (allow: AllowTunnelConfig)
        ensures
            allow@ == AllowTunnelModel::unrestricted(),
    {
        AllowTunnelConfig {
            protocol: Vec::new(),
            port: Vec::new(),
            host: default_host(),
            cidr: default_cidr(),
        }
    }
}

impl AllowTunnelConfig {
    /// Decides on the request once the host pattern has been tried.
    pub fn admits_with(&self, request: &TunnelRequest, host_matched: bool) -> (admitted: bool)
        ensures
            admitted == self@.admits_given(request@, host_matched),
    {
        match request.direction {
            Direction::Forward => {},
            Direction::Reverse => {
                return false;
            },
        }
        host_matched && forward_protocol_allowed(
            &self.protocol,
            TunnelConfigProtocol::from(&request.protocol),
        ) && port_allowed(&self.port, request.port) && address_allowed(&self.cidr, &request.address)
    }

    pub fn admits(&self, request: &TunnelRequest) -> (admitted: bool)
        ensures
            admitted == self@.admits(request@),
    {
        self.admits_with(request, true) && host_matches(self.host.as_str(), request.host.as_str())
    }
}

impl Default for AllowReverseTunnelConfig {
    /// The permission of a configuration entry that names nothing: every
    /// protocol, every port and every address.
    fn default() -> (allow: AllowReverseTunnelConfig)
        ensures
            allow@ == AllowReverseTunnelModel::unrestricted(),
    {
        AllowReverseTunnelConfig { protocol: Vec::new(), port: Vec::new(), cidr: default_cidr() }
    }
}

impl AllowReverseTunnelConfig {
    pub fn admits(&self, request: &TunnelRequest) -> (admitted: bool)
        ensures
            admitted == self@.admits(request@),
    {
        match request.direction {
            Direction::Reverse => {},
            Direction::Forward => {
                return false;
            },
        }
        reverse_protocol_allowed(&self.protocol, ReverseTunnelConfigProtocol::from(&request.protocol))
            && port_allowed(&self.port, request.port) && address_allowed(
            &self.cidr,
            &request.address,
        )
    }
}

impl AllowConfig {
    pub fn admits(&self, request: &TunnelRequest) -> (admitted: bool)
        ensures
            admitted == self@.admits(request@),
    {
        match self {
            AllowConfig::ReverseTunnel(allow) => allow.admits(request),
            AllowConfig::Tunnel(allow) => allow.admits(request),
        }
    }
}

impl RestrictionConfig {
    pub fn matches(&self, path: &str) -> (matched: bool)
        ensures
            matched == self@.matches(path@),
    {
        let mut i: usize = 0;
        while i < self.matchers.len()
            invariant
                i <= self.matchers.len(),
                forall|k: int| 0 <= k < i ==> !(#[trigger] self@.matchers[k]).accepts(path@),
            decreases self.matchers.len() - i,
        {
            if self.matchers[i].accepts(path) {
                assert(self@.matchers[i as int] == self.matchers@[i as int]@);
                return true;
            }
            assert(self@.matchers[i as int] == self.matchers@[i as int]@);
            i += 1;
        }
        false
    }

    pub fn admits(&self, request: &TunnelRequest) -> (admitted: bool)
        ensures
            admitted == self@.admits(request@),
    {
        let mut i: usize = 0;
        while i < self.allow.len()
            invariant
                i <= self.allow.len(),
                forall|k: int| 0 <= k < i ==> !(#[trigger] self@.allow[k]).admits(request@),
            decreases self.allow.len() - i,
        {
            if self.allow[i].admits(request) {
                assert(self@.allow[i as int] == self.allow@[i as int]@);
                return true;
            }
            assert(self@.allow[i as int] == self.allow@[i as int]@);
            i += 1;
        }
        false
    }
}

} // verus!
