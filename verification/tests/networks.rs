use restrictions::network::address_allowed;
use restrictions::{default_cidr, Cidr, ConfigError, IpAddress};

fn v4(a: u8, b: u8, c: u8, d: u8) -> IpAddress {
    IpAddress::V4(u32::from_be_bytes([a, b, c, d]))
}

#[test]
fn network_is_read_from_cidr_notation() {
    assert_eq!(Cidr::parse("10.0.0.0/8"), Ok(Cidr::V4 { addr: 0x0A00_0000, prefix_len: 8 }));
    assert_eq!(Cidr::parse("192.168.12.34/16"), Ok(Cidr::V4 { addr: 0xC0A8_0C22, prefix_len: 16 }));
    assert_eq!(Cidr::parse("0.0.0.0/0"), Ok(Cidr::V4 { addr: 0, prefix_len: 0 }));
    assert_eq!(
        Cidr::parse("fd00::/16"),
        Ok(Cidr::V6 { addr: 0xfd00_0000_0000_0000_0000_0000_0000_0000, prefix_len: 16 })
    );
    assert_eq!(Cidr::parse("::1/128"), Ok(Cidr::V6 { addr: 1, prefix_len: 128 }));
}

#[test]
fn network_is_refused_when_malformed() {
    for text in ["", "10.0.0.0", "10.0.0.0/33", "10.0.0/8", "256.0.0.0/8", "fd00::/129", "example.com/8", " 10.0.0.0/8"] {
        assert_eq!(Cidr::parse(text), Err(ConfigError::InvalidNetwork));
    }
}

#[test]
fn network_holds_the_addresses_under_its_prefix() {
    let net = Cidr::parse("10.0.0.0/8").unwrap();
    assert!(net.contains(&v4(10, 1, 2, 3)));
    assert!(net.contains(&v4(10, 0, 0, 0)));
    assert!(net.contains(&v4(10, 255, 255, 255)));
    assert!(!net.contains(&v4(9, 255, 255, 255)));
    assert!(!net.contains(&v4(11, 0, 0, 0)));
    assert!(!net.contains(&v4(192, 168, 1, 1)));
}

#[test]
fn network_ignores_address_bits_below_its_prefix() {
    let net = Cidr::parse("172.16.123.123/16").unwrap();
    assert!(net.contains(&v4(172, 16, 0, 1)));
    assert!(net.contains(&v4(172, 16, 255, 255)));
    assert!(!net.contains(&v4(172, 17, 0, 0)));
}

#[test]
fn network_of_full_prefix_holds_one_address() {
    let net = Cidr::V4 { addr: 0xC0A8_0101, prefix_len: 32 };
    assert!(net.contains(&IpAddress::V4(0xC0A8_0101)));
    assert!(!net.contains(&IpAddress::V4(0xC0A8_0100)));
    assert!(!net.contains(&IpAddress::V4(0xC0A8_0102)));
    let net6 = Cidr::V6 { addr: 1, prefix_len: 128 };
    assert!(net6.contains(&IpAddress::V6(1)));
    assert!(!net6.contains(&IpAddress::V6(2)));
}

#[test]
fn ipv6_network_holds_the_addresses_under_its_prefix() {
    let net = Cidr::parse("fd00::/16").unwrap();
    assert!(net.contains(&IpAddress::V6(0xfd00_0000_0000_0000_0000_0000_0000_0001)));
    assert!(net.contains(&IpAddress::V6(0xfd00_ffff_ffff_ffff_ffff_ffff_ffff_ffff)));
    assert!(!net.contains(&IpAddress::V6(0xfd01_0000_0000_0000_0000_0000_0000_0000)));
}

#[test]
fn network_holds_no_address_of_the_other_family() {
    let nets = vec![Cidr::parse("10.0.0.0/8").unwrap()];
    assert!(address_allowed(&nets, &IpAddress::V4(0x0A01_0203)));
    assert!(!address_allowed(&nets, &IpAddress::V6(0x0A01_0203)));
    assert!(!address_allowed(&nets, &IpAddress::V6(0x0000_0000_0000_0000_0000_ffff_0a01_0203)));
    let nets6 = vec![Cidr::parse("::/0").unwrap()];
    assert!(address_allowed(&nets6, &IpAddress::V6(7)));
    assert!(!address_allowed(&nets6, &IpAddress::V4(7)));
}

#[test]
fn network_with_too_long_a_prefix_holds_nothing() {
    let net = Cidr::V4 { addr: 0x0A00_0000, prefix_len: 33 };
    assert!(!net.is_well_formed());
    assert!(!net.contains(&IpAddress::V4(0x0A00_0000)));
    let net6 = Cidr::V6 { addr: 0, prefix_len: 129 };
    assert!(!net6.is_well_formed());
    assert!(!net6.contains(&IpAddress::V6(0)));
}

#[test]
fn default_networks_are_all_of_both_families() {
    let nets = default_cidr();
    assert_eq!(nets, vec![Cidr::V4 { addr: 0, prefix_len: 0 }, Cidr::V6 { addr: 0, prefix_len: 0 }]);
    assert_eq!(nets, vec![Cidr::parse("0.0.0.0/0").unwrap(), Cidr::parse("::/0").unwrap()]);
    assert!(address_allowed(&nets, &IpAddress::V4(0)));
    assert!(address_allowed(&nets, &IpAddress::V4(u32::MAX)));
    assert!(address_allowed(&nets, &IpAddress::V6(0)));
    assert!(address_allowed(&nets, &IpAddress::V6(u128::MAX)));
}

#[test]
fn empty_network_list_admits_every_address() {
    let nets: Vec<Cidr> = Vec::new();
    assert!(address_allowed(&nets, &IpAddress::V4(0x0A01_0203)));
    assert!(address_allowed(&nets, &IpAddress::V6(1)));
}

#[test]
fn network_list_admits_members_of_any_network() {
    let nets = vec![Cidr::parse("10.0.0.0/8").unwrap(), Cidr::parse("192.168.0.0/16").unwrap()];
    assert!(address_allowed(&nets, &v4(192, 168, 1, 1)));
    assert!(address_allowed(&nets, &v4(10, 9, 8, 7)));
    assert!(!address_allowed(&nets, &v4(172, 16, 0, 1)));
}
