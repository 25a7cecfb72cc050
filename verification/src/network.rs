//! IP addresses, networks in CIDR notation, and membership of one in the other.
//!
//! Addresses are held as integers in network order: `10.1.2.3` is
//! `0x0A01_0203`. The `ipnet` crate parses networks and decides membership.

use vstd::prelude::*;

use crate::error::ConfigError;

verus! {

/// An IP address of either family.
#[derive(Clone, Copy, Debug, PartialEq, Eq, Structural)]
pub enum IpAddress {
    V4(u32),
    V6(u128),
}

/// An IP network of either family: an address and the number of its leading
/// bits that every member shares. The address may have bits set below the
/// prefix; they do not count.
#[derive(Clone, Copy, Debug, PartialEq, Eq, Structural)]
#[allow(inconsistent_fields)]
pub enum Cidr {
    V4 { addr: u32, prefix_len: u8 },
    V6 { addr: u128, prefix_len: u8 },
}

/// The mask that keeps the leading `prefix_len` bits of an IPv4 address.
pub open spec fn v4_netmask(prefix_len: u8) -> u32 {
    if prefix_len == 0 {
        0
    } else {
        u32::MAX << ((32 - prefix_len) as u32)
    }
}

/// The mask that keeps the bits of an IPv4 address below the prefix.
pub open spec fn v4_hostmask(prefix_len: u8) -> u32 {
    if prefix_len >= 32 {
        0
    } else {
        u32::MAX >> (prefix_len as u32)
    }
}

/// The mask that keeps the leading `prefix_len` bits of an IPv6 address.
pub open spec fn v6_netmask(prefix_len: u8) -> u128 {
    if prefix_len == 0 {
        0
    } else {
        u128::MAX << ((128 - prefix_len) as u128)
    }
}

/// The mask that keeps the bits of an IPv6 address below the prefix.
pub open spec fn v6_hostmask(prefix_len: u8) -> u128 {
    if prefix_len >= 128 {
        0
    } else {
        u128::MAX >> (prefix_len as u128)
    }
}

impl Cidr {
    /// The prefix is no longer than an address of the family.
    pub open spec fn well_formed(self) -> bool {
        match self {
            Cidr::V4 { prefix_len, .. } => prefix_len <= 32,
            Cidr::V6 { prefix_len, .. } => prefix_len <= 128,
        }
    }

    /// Whether `address` lies in the network: it is of the network's family and
    /// stands between the network's first and last address. A network that is
    /// not well formed holds no address.
    pub open spec fn spec_contains(self, address: IpAddress) -> bool {
        self.well_formed() && match (self, address) {
            (Cidr::V4 { addr, prefix_len }, IpAddress::V4(a)) => {
                (addr & v4_netmask(prefix_len)) <= a && a <= (addr | v4_hostmask(prefix_len))
            },
            (Cidr::V6 { addr, prefix_len }, IpAddress::V6(a)) => {
                (addr & v6_netmask(prefix_len)) <= a && a <= (addr | v6_hostmask(prefix_len))
            },
            _ => false,
        }
    }

    pub fn is_well_formed(&self) -> (ok: bool)
        ensures
            ok == self.well_formed(),
    {
        match self {
            Cidr::V4 { prefix_len, .. } => *prefix_len <= 32,
            Cidr::V6 { prefix_len, .. } => *prefix_len <= 128,
        }
    }

    pub fn contains(&self, address: &IpAddress) -> (inside: bool)
        ensures
            inside == self.spec_contains(*address),
    {
        self.is_well_formed() && ip_net_contains(self, address)
    }

    /// Reads a network in CIDR notation, such as `10.0.0.0/8` or `fd00::/16`.
    pub fn parse(text: &str) -> (net: Result<Cidr, ConfigError>)
        ensures
            match net {
                Ok(n) => ip_net_from_str(text@) == Some(n) && n.well_formed(),
                Err(e) => ip_net_from_str(text@) is None && e == ConfigError::InvalidNetwork,
            },
    {
        match ip_net_parse(text) {
            Ok(n) => Ok(n),
            Err(_) => Err(ConfigError::InvalidNetwork),
        }
    }
}

/// `ipnet::AddrParseError`, the error with which `ipnet` refuses a text that is
/// no network. Nothing is claimed of its values.
#[verifier::external_type_specification]
#[verifier::external_body]
pub struct ExAddrParseError(ipnet::AddrParseError);

/// What `ipnet` reads from a text in CIDR notation: the network, or nothing
/// where the text is not one.
pub uninterp spec fn ip_net_from_str(text: Seq<char>) -> Option<Cidr>;

/// Calls `IpNet::from_str` of `ipnet`, through `str::parse`.
///
/// Claimed: the outcome depends on the text alone, and a network that comes
/// back has a prefix within its family's address length, as the crate's parser
/// accepts no other.
#[verifier::external_body]
fn ip_net_parse(text: &str) -> (net: Result<Cidr, ipnet::AddrParseError>)
    ensures
        net is Ok <==> ip_net_from_str(text@) is Some,
        net matches Ok(n) ==> ip_net_from_str(text@) == Some(n) && n.well_formed(),
{
    match text.parse::<ipnet::IpNet>() {
        Ok(ipnet::IpNet::V4(n)) => Ok(Cidr::V4 { addr: n.addr().into(), prefix_len: n.prefix_len() }),
        Ok(ipnet::IpNet::V6(n)) => Ok(Cidr::V6 { addr: n.addr().into(), prefix_len: n.prefix_len() }),
        Err(e) => Err(e),
    }
}

/// Calls `IpNet::contains` of `ipnet` on an address.
///
/// Claimed: networks hold addresses of their own family only, and within a
/// family the address is compared with the network's first address (the
/// network address under the netmask) and last address (the network address
/// over the host mask), as the crate computes them.
#[verifier::external_body]
fn ip_net_contains(net: &Cidr, address: &IpAddress) -> (inside: bool)
    requires
        net.well_formed(),
    ensures
        inside == net.spec_contains(*address),
{
    let net = match *net {
        Cidr::V4 { addr, prefix_len } => ipnet::IpNet::new_assert(addr.to_be_bytes().into(), prefix_len),
        Cidr::V6 { addr, prefix_len } => ipnet::IpNet::new_assert(addr.to_be_bytes().into(), prefix_len),
    };
    let host = match *address {
        IpAddress::V4(a) => ipnet::IpNet::new_assert(a.to_be_bytes().into(), 32),
        IpAddress::V6(a) => ipnet::IpNet::new_assert(a.to_be_bytes().into(), 128),
    };
    net.contains(&host.addr())
}

/// Calls `Ipv4Net::default` of `ipnet`, which is `0.0.0.0/0`.
#[verifier::external_body]
fn ipv4_net_default() -> (net: Cidr)
    ensures
        net == (Cidr::V4 { addr: 0, prefix_len: 0 }),
{
    let net = ipnet::Ipv4Net::default();
    Cidr::V4 { addr: net.addr().into(), prefix_len: net.prefix_len() }
}

/// Calls `Ipv6Net::default` of `ipnet`, which is `::/0`.
#[verifier::external_body]
fn ipv6_net_default() -> (net: Cidr)
    ensures
        net == (Cidr::V6 { addr: 0, prefix_len: 0 }),
{
    let net = ipnet::Ipv6Net::default();
    Cidr::V6 { addr: net.addr().into(), prefix_len: net.prefix_len() }
}

/// The networks of a permission that names none: all of IPv4 and all of IPv6.
pub open spec fn default_cidr_spec() -> Seq<Cidr> {
    seq![Cidr::V4 { addr: 0, prefix_len: 0 }, Cidr::V6 { addr: 0, prefix_len: 0 }]
}

pub fn default_cidr() -> (nets: Vec<Cidr>)
    ensures
        nets@ == default_cidr_spec(),
{
    let mut nets: Vec<Cidr> = Vec::new();
    nets.push(ipv4_net_default());
    nets.push(ipv6_net_default());
    nets
}

/// Whether a list of networks admits `address`: an empty list admits every
/// address, any other list admits the members of its networks.
pub open spec fn networks_admit(nets: Seq<Cidr>, address: IpAddress) -> bool {
    nets.len() == 0 || exists|i: int| 0 <= i < nets.len() && #[trigger] nets[i].spec_contains(address)
}

pub fn address_allowed(nets: &Vec<Cidr>, address: &IpAddress) -> (admitted: bool)
    ensures
        admitted == networks_admit(nets@, *address),
{
    if nets.len() == 0 {
        return true;
    }
    let mut i: usize = 0;
    while i < nets.len()
        invariant
            i <= nets.len(),
            forall|k: int| 0 <= k < i ==> !(#[trigger] nets@[k]).spec_contains(*address),
        decreases nets.len() - i,
    {
        if nets[i].contains(address) {
            return true;
        }
        i += 1;
    }
    false
}

/// A network with an empty prefix holds every address of its family.
pub proof fn lemma_empty_prefix_contains_family(address: IpAddress)
    ensures
        address is V4 ==> (Cidr::V4 { addr: 0, prefix_len: 0 }).spec_contains(address),
        address is V6 ==> (Cidr::V6 { addr: 0, prefix_len: 0 }).spec_contains(address),
{
    match address {
        IpAddress::V4(a) => {
            assert((0u32 & 0u32) <= a && a <= (0u32 | (u32::MAX >> 0u32))) by (bit_vector);
        },
        IpAddress::V6(a) => {
            assert((0u128 & 0u128) <= a && a <= (0u128 | (u128::MAX >> 0u128))) by (bit_vector);
        },
    }
}

/// Within a family, the members of a well-formed network are the addresses
/// that share the network's leading `prefix_len` bits.
pub proof fn lemma_members_share_prefix(net: Cidr, address: IpAddress)
    requires
        net.well_formed(),
    ensures
        net matches Cidr::V4 { addr, prefix_len } ==> (address matches IpAddress::V4(a) ==> (
            net.spec_contains(address)
                <==> (addr & v4_netmask(prefix_len)) == (a & v4_netmask(prefix_len)))),
        net matches Cidr::V6 { addr, prefix_len } ==> (address matches IpAddress::V6(a) ==> (
            net.spec_contains(address)
                <==> (addr & v6_netmask(prefix_len)) == (a & v6_netmask(prefix_len)))),
{
    match (net, address) {
        (Cidr::V4 { addr, prefix_len }, IpAddress::V4(a)) => {
            let p: u32 = prefix_len as u32;
            let shift: u32 = (32 - prefix_len) as u32;
            let netmask: u32 = v4_netmask(prefix_len);
            let hostmask: u32 = v4_hostmask(prefix_len);
            assert(p <= 32 && p + shift == 32 && netmask == (if p == 0 {
                0u32
            } else {
                u32::MAX << shift
            }) && hostmask == (if p >= 32 {
                0u32
            } else {
                u32::MAX >> p
            }) ==> (((addr & netmask) <= a && a <= (addr | hostmask)) <==> (addr & netmask) == (a
                & netmask))) by (bit_vector);
        },
        (Cidr::V6 { addr, prefix_len }, IpAddress::V6(a)) => {
            let p: u128 = prefix_len as u128;
            let shift: u128 = (128 - prefix_len) as u128;
            let netmask: u128 = v6_netmask(prefix_len);
            let hostmask: u128 = v6_hostmask(prefix_len);
            assert(p <= 128 && p + shift == 128 && netmask == (if p == 0 {
                0u128
            } else {
                u128::MAX << shift
            }) && hostmask == (if p >= 128 {
                0u128
            } else {
                u128::MAX >> p
            }) ==> (((addr & netmask) <= a && a <= (addr | hostmask)) <==> (addr & netmask) == (a
                & netmask))) by (bit_vector);
        },
        _ => {},
    }
}

} // verus!
