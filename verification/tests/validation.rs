use restrictions::{
    default_cidr, default_host, non_empty_vec, AllowConfig, AllowReverseTunnelConfig,
    AllowTunnelConfig, Cidr, ConfigError, MatchConfig, RestrictionConfig, RestrictionsRules,
    RuleError,
};

fn rule(name: &str, matchers: Vec<MatchConfig>, allow: Vec<AllowConfig>) -> RestrictionConfig {
    RestrictionConfig { name: name.to_string(), matchers, allow }
}

fn forward_allow(host: &str, cidr: Vec<Cidr>) -> AllowConfig {
    AllowConfig::Tunnel(AllowTunnelConfig {
        protocol: Vec::new(),
        port: Vec::new(),
        host: host.to_string(),
        cidr,
    })
}

#[test]
fn non_empty_list_is_handed_back() {
    assert_eq!(non_empty_vec(vec![1u8, 2, 3]), Ok(vec![1u8, 2, 3]));
    assert_eq!(non_empty_vec(vec!["Any".to_string()]), Ok(vec!["Any".to_string()]));
}

#[test]
fn empty_list_is_refused() {
    assert_eq!(non_empty_vec(Vec::<u8>::new()), Err(ConfigError::EmptyList));
    assert_eq!(ConfigError::EmptyList.message(), "List must not be empty");
}

#[test]
fn every_error_has_its_message() {
    assert_eq!(ConfigError::InvalidPort.message(), "invalid port or port range");
    assert_eq!(ConfigError::InvalidPattern.message(), "invalid regular expression");
    assert_eq!(ConfigError::InvalidNetwork.message(), "invalid IP network");
}

#[test]
fn well_formed_rule_set_passes() {
    let rules = RestrictionsRules {
        restrictions: vec![
            rule(
                "api",
                vec![MatchConfig::PathPrefix("/api".to_string())],
                vec![
                    forward_allow(&default_host(), default_cidr()),
                    AllowConfig::ReverseTunnel(AllowReverseTunnelConfig::default()),
                ],
            ),
            rule("default", vec![MatchConfig::Any], Vec::new()),
        ],
    };
    assert_eq!(rules.validate(), Ok(()));
    assert_eq!(RestrictionsRules { restrictions: Vec::new() }.validate(), Ok(()));
}

#[test]
fn rule_without_match_predicate_is_refused() {
    let bad = rule("bad", Vec::new(), Vec::new());
    assert_eq!(bad.check(), Err(ConfigError::EmptyList));
    let rules = RestrictionsRules {
        restrictions: vec![rule("ok", vec![MatchConfig::Any], Vec::new()), bad],
    };
    assert_eq!(rules.validate(), Err(RuleError { rule: 1, error: ConfigError::EmptyList }));
}

#[test]
fn rule_with_bad_path_pattern_is_refused() {
    let bad = rule("bad", vec![MatchConfig::Any, MatchConfig::PathPrefix("(".to_string())], Vec::new());
    assert_eq!(bad.check(), Err(ConfigError::InvalidPattern));
}

#[test]
fn rule_with_bad_host_pattern_is_refused() {
    let bad = rule("bad", vec![MatchConfig::Any], vec![forward_allow("[a-", default_cidr())]);
    assert_eq!(bad.check(), Err(ConfigError::InvalidPattern));
    let rules = RestrictionsRules { restrictions: vec![bad] };
    assert_eq!(rules.validate(), Err(RuleError { rule: 0, error: ConfigError::InvalidPattern }));
}

#[test]
fn rule_with_bad_network_is_refused() {
    let too_long = Cidr::V4 { addr: 0, prefix_len: 40 };
    let bad = rule("bad", vec![MatchConfig::Any], vec![forward_allow("^.*$", vec![too_long])]);
    assert_eq!(bad.check(), Err(ConfigError::InvalidNetwork));
    let bad_reverse = rule(
        "bad",
        vec![MatchConfig::Any],
        vec![AllowConfig::ReverseTunnel(AllowReverseTunnelConfig {
            protocol: Vec::new(),
            port: Vec::new(),
            cidr: vec![Cidr::V6 { addr: 0, prefix_len: 200 }],
        })],
    );
    assert_eq!(bad_reverse.check(), Err(ConfigError::InvalidNetwork));
}

#[test]
fn defects_are_reported_in_a_fixed_order() {
    let too_long = Cidr::V4 { addr: 0, prefix_len: 40 };
    let pattern_and_network = rule(
        "two",
        vec![MatchConfig::Any],
        vec![forward_allow("^.*$", vec![too_long]), forward_allow("(", default_cidr())],
    );
    assert_eq!(pattern_and_network.check(), Err(ConfigError::InvalidPattern));
    let nothing_and_network = rule("three", Vec::new(), vec![forward_allow("(", vec![too_long])]);
    assert_eq!(nothing_and_network.check(), Err(ConfigError::EmptyList));
}

#[test]
fn first_defective_rule_is_reported() {
    let rules = RestrictionsRules {
        restrictions: vec![
            rule("fine", vec![MatchConfig::Any], Vec::new()),
            rule("pattern", vec![MatchConfig::PathPrefix("(".to_string())], Vec::new()),
            rule("empty", Vec::new(), Vec::new()),
        ],
    };
    assert_eq!(rules.validate(), Err(RuleError { rule: 1, error: ConfigError::InvalidPattern }));
}
