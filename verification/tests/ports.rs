use restrictions::port::port_allowed;
use restrictions::{parse_port, parse_port_range, parse_port_ranges, ConfigError, PortRange};

#[test]
fn single_port_reads_as_a_range_of_one() {
    assert_eq!(parse_port_range("80"), Ok(PortRange { low: 80, high: 80 }));
    assert_eq!(parse_port_range("0"), Ok(PortRange { low: 0, high: 0 }));
    assert_eq!(parse_port_range("65535"), Ok(PortRange { low: 65535, high: 65535 }));
}

#[test]
fn range_reads_both_ends() {
    assert_eq!(parse_port_range("1000..2000"), Ok(PortRange { low: 1000, high: 2000 }));
    assert_eq!(parse_port_range("0..65535"), Ok(PortRange { low: 0, high: 65535 }));
}

#[test]
fn port_accepts_what_integer_parsing_accepts() {
    assert_eq!(parse_port("8080"), Ok(8080));
    assert_eq!(parse_port("+80"), Ok(80));
    assert_eq!(parse_port("00080"), Ok(80));
    assert_eq!(parse_port("0000000000000000000065535"), Ok(65535));
    for text in ["8080", "+80", "00080", "0", "65535", "65536", "", "+", "-1", " 80", "8o", "٣"] {
        let expected = text.parse::<u16>().map_err(|_| ConfigError::InvalidPort);
        assert_eq!(parse_port(text), expected);
    }
}

#[test]
fn port_refuses_what_is_no_16_bit_number() {
    for text in ["", "+", "-1", "65536", "99999999999999999999", " 80", "80 ", "8_0", "0x50", "http", "٣"] {
        assert_eq!(parse_port(text), Err(ConfigError::InvalidPort));
    }
}

#[test]
fn range_refuses_malformed_text() {
    for text in ["", "..", "1000..", "..2000", "a..b", "1000...2000", "1..2..3", "1000.2000", "1000-2000", "1000..65536"] {
        assert_eq!(parse_port_range(text), Err(ConfigError::InvalidPort));
    }
}

#[test]
fn range_is_cut_at_the_first_separator() {
    assert_eq!(parse_port_range("1..+2"), Ok(PortRange { low: 1, high: 2 }));
    assert_eq!(parse_port_range("+1..2"), Ok(PortRange { low: 1, high: 2 }));
    assert_eq!(parse_port_range("1..2..3"), Err(ConfigError::InvalidPort));
}

#[test]
fn port_list_reads_every_entry() {
    let items = vec!["80".to_string(), "1000..2000".to_string()];
    assert_eq!(
        parse_port_ranges(&items),
        Ok(vec![PortRange { low: 80, high: 80 }, PortRange { low: 1000, high: 2000 }])
    );
    assert_eq!(parse_port_ranges(&Vec::new()), Ok(Vec::new()));
}

#[test]
fn port_list_is_refused_for_one_bad_entry() {
    let items = vec!["80".to_string(), "x".to_string(), "443".to_string()];
    assert_eq!(parse_port_ranges(&items), Err(ConfigError::InvalidPort));
}

#[test]
fn port_range_admits_its_ends_and_nothing_beyond() {
    let ranges = vec![parse_port_range("1000..2000").unwrap()];
    assert!(port_allowed(&ranges, 1000));
    assert!(port_allowed(&ranges, 2000));
    assert!(port_allowed(&ranges, 1500));
    assert!(!port_allowed(&ranges, 999));
    assert!(!port_allowed(&ranges, 2001));
}

#[test]
fn empty_port_list_admits_every_port() {
    let ranges: Vec<PortRange> = Vec::new();
    assert!(port_allowed(&ranges, 0));
    assert!(port_allowed(&ranges, 443));
    assert!(port_allowed(&ranges, 65535));
}

#[test]
fn port_list_admits_the_ports_of_any_of_its_ranges() {
    let ranges = vec![PortRange::single(80), PortRange::new(8000, 8999)];
    assert!(port_allowed(&ranges, 80));
    assert!(port_allowed(&ranges, 8443));
    assert!(!port_allowed(&ranges, 81));
    assert!(!port_allowed(&ranges, 9000));
}

#[test]
fn range_with_ends_swapped_holds_no_port() {
    let range = parse_port_range("2000..1000").unwrap();
    assert_eq!(range, PortRange { low: 2000, high: 1000 });
    assert!(!range.contains(1000));
    assert!(!range.contains(1500));
    assert!(!range.contains(2000));
}

#[test]
fn text_is_taken_apart_into_its_characters() {
    assert_eq!(restrictions::text::chars_of("80..90"), vec!['8', '0', '.', '.', '9', '0']);
    assert_eq!(restrictions::text::chars_of("é٣"), vec!['é', '٣']);
    assert_eq!(restrictions::text::chars_of(""), Vec::<char>::new());
}
