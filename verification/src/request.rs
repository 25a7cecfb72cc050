//! What is known of one tunnel request, and what is decided about it.

use vstd::prelude::*;

use crate::network::IpAddress;
use crate::protocol::LocalProtocol;

verus! {

/// Who reaches whom through the tunnel.
#[derive(Clone, Copy, Debug, PartialEq, Eq, Structural)]
pub enum Direction {
    /// The client reaches a destination outside.
    Forward,
    /// A peer outside reaches back into the client's network.
    Reverse,
}

/// One tunnel request, as the transport describes it.
#[derive(Clone, Debug)]
pub struct TunnelRequest {
    pub direction: Direction,
    pub protocol: LocalProtocol,
    /// The destination host. Forward permissions hold their host pattern
    /// against it; reverse permissions do not look at it.
    pub host: String,
    /// The destination address of a forward tunnel, the peer's address of a
    /// reverse tunnel.
    pub address: IpAddress,
    pub port: u16,
    /// The path of the request, by which its governing rule is chosen.
    pub path: String,
}

/// A request as a mathematical value.
pub struct RequestModel {
    pub direction: Direction,
    pub protocol: LocalProtocol,
    pub host: Seq<char>,
    pub address: IpAddress,
    pub port: u16,
    pub path: Seq<char>,
}

impl View for TunnelRequest {
    type V = RequestModel;

    open spec fn view(&self) -> RequestModel {
        RequestModel {
            direction: self.direction,
            protocol: self.protocol,
            host: self.host@,
            address: self.address,
            port: self.port,
            path: self.path@,
        }
    }
}

/// Why a request is denied.
#[derive(Clone, Copy, Debug, PartialEq, Eq, Structural)]
pub enum DenyReason {
    /// No rule's match predicates accept the request.
    NoMatchingRule,
    /// A rule governs the request and none of its permissions covers it.
    NoAllowRuleMatched,
}

#[derive(Clone, Copy, Debug, PartialEq, Eq, Structural)]
pub enum Outcome {
    Allow,
    Deny(DenyReason),
}

/// The decision on one request: the outcome, and the rule that governed it by
/// its position in the rule set and by its name.
#[derive(Clone, Debug)]
pub struct Decision {
    pub outcome: Outcome,
    pub rule: Option<usize>,
    pub rule_name: Option<String>,
}

/// A decision as a mathematical value.
pub struct DecisionModel {
    pub outcome: Outcome,
    pub rule: Option<int>,
    pub rule_name: Option<Seq<char>>,
}

impl View for Decision {
    type V = DecisionModel;

    open spec fn view(&self) -> DecisionModel {
        DecisionModel {
            outcome: self.outcome,
            rule: match self.rule {
                Some(i) => Some(i as int),
                None => None,
            },
            rule_name: match self.rule_name {
                Some(name) => Some(name@),
                None => None,
            },
        }
    }
}

impl Decision {
    pub fn is_allowed(&self) -> (allowed: bool)
        ensures
            allowed == (self.outcome == Outcome::Allow),
    {
        match self.outcome {
            Outcome::Allow => true,
            Outcome::Deny(_) => false,
        }
    }
}

} // verus!
