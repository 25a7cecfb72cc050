//! Transport shapes and the coarse protocol tags that policies speak of.

use vstd::prelude::*;
use vstd::std_specs::convert::FromSpecImpl;

verus! {

/// How a tunnel endpoint is realised: its transport and its directionality.
///
/// One vocabulary serves forward and reverse tunnels alike, so a value of this
/// type says nothing about policy until it is classified for a direction.
#[derive(Clone, Copy, Debug, PartialEq, Eq, Structural)]
pub enum LocalProtocol {
    Tcp,
    Udp,
    Stdio,
    Socks5,
    TProxyTcp,
    TProxyUdp,
    ReverseTcp,
    ReverseUdp,
    ReverseSocks5,
    ReverseUnix,
    Unix,
}

/// Protocol tag of a forward tunnel permission.
#[derive(Clone, Copy, Debug, PartialEq, Eq, Structural)]
pub enum TunnelConfigProtocol {
    Tcp,
    Udp,
    Unknown,
}

/// Protocol tag of a reverse tunnel permission.
#[derive(Clone, Copy, Debug, PartialEq, Eq, Structural)]
pub enum ReverseTunnelConfigProtocol {
    Tcp,
    Udp,
    Socks5,
    Unix,
    Unknown,
}

/// The tag under which a forward tunnel permission sees a transport: plain TCP
/// and UDP keep their name, every other shape is `Unknown`.
pub open spec fn classify_for_forward(protocol: LocalProtocol) -> TunnelConfigProtocol {
    match protocol {
        LocalProtocol::Tcp => TunnelConfigProtocol::Tcp,
        LocalProtocol::Udp => TunnelConfigProtocol::Udp,
        _ => TunnelConfigProtocol::Unknown,
    }
}

/// The tag under which a reverse tunnel permission sees a transport: the four
/// reverse shapes map to their tag, every other shape is `Unknown`.
pub open spec fn classify_for_reverse(protocol: LocalProtocol) -> ReverseTunnelConfigProtocol {
    match protocol {
        LocalProtocol::ReverseTcp => ReverseTunnelConfigProtocol::Tcp,
        LocalProtocol::ReverseUdp => ReverseTunnelConfigProtocol::Udp,
        LocalProtocol::ReverseSocks5 => ReverseTunnelConfigProtocol::Socks5,
        LocalProtocol::ReverseUnix => ReverseTunnelConfigProtocol::Unix,
        _ => ReverseTunnelConfigProtocol::Unknown,
    }
}

impl From<&LocalProtocol> for TunnelConfigProtocol {
    fn from(value: &LocalProtocol) -> (tag: Self)
        ensures
            tag == classify_for_forward(*value),
    {
        match value {
            LocalProtocol::ReverseTcp
            | LocalProtocol::ReverseUdp
            | LocalProtocol::ReverseSocks5
            | LocalProtocol::ReverseUnix
            | LocalProtocol::Stdio
            | LocalProtocol::Socks5
            | LocalProtocol::TProxyTcp
            | LocalProtocol::TProxyUdp
            | LocalProtocol::Unix => TunnelConfigProtocol::Unknown,
            LocalProtocol::Tcp => TunnelConfigProtocol::Tcp,
            LocalProtocol::Udp => TunnelConfigProtocol::Udp,
        }
    }
}

impl FromSpecImpl<&LocalProtocol> for TunnelConfigProtocol {
    open spec fn obeys_from_spec() -> bool {
        true
    }

    open spec fn from_spec(value: &LocalProtocol) -> Self {
        classify_for_forward(*value)
    }
}

impl From<&LocalProtocol> for ReverseTunnelConfigProtocol {
    fn from(value: &LocalProtocol) -> (tag: Self)
        ensures
            tag == classify_for_reverse(*value),
    {
        match value {
            LocalProtocol::Tcp
            | LocalProtocol::Udp
            | LocalProtocol::Stdio
            | LocalProtocol::Socks5
            | LocalProtocol::TProxyTcp
            | LocalProtocol::TProxyUdp
            | LocalProtocol::Unix => ReverseTunnelConfigProtocol::Unknown,
            LocalProtocol::ReverseTcp => ReverseTunnelConfigProtocol::Tcp,
            LocalProtocol::ReverseUdp => ReverseTunnelConfigProtocol::Udp,
            LocalProtocol::ReverseSocks5 => ReverseTunnelConfigProtocol::Socks5,
            LocalProtocol::ReverseUnix => ReverseTunnelConfigProtocol::Unix,
        }
    }
}

impl FromSpecImpl<&LocalProtocol> for ReverseTunnelConfigProtocol {
    open spec fn obeys_from_spec() -> bool {
        true
    }

    open spec fn from_spec(value: &LocalProtocol) -> Self {
        classify_for_reverse(*value)
    }
}

/// The two classifications never both name a transport: a shape known to one
/// direction is `Unknown` to the other.
pub proof fn lemma_classification_is_directional(protocol: LocalProtocol)
    ensures
        classify_for_forward(protocol) != TunnelConfigProtocol::Unknown
            ==> classify_for_reverse(protocol) == ReverseTunnelConfigProtocol::Unknown,
        classify_for_reverse(protocol) != ReverseTunnelConfigProtocol::Unknown
            ==> classify_for_forward(protocol) == TunnelConfigProtocol::Unknown,
{
}

} // verus!
