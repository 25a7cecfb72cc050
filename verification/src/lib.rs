//! Access-control policy for a tunneling service.
//!
//! A [`RestrictionsRules`] value is an ordered list of named rules. Each rule
//! pairs match predicates, which select the requests it governs, with a list of
//! permissions. For every tunnel request the engine finds the first rule whose
//! match predicates accept the request path and admits the request exactly when
//! one of that rule's permissions covers its direction, protocol, port, host and
//! address.
//!
//! The crate is verified with Verus: each function has a contract over the
//! mathematical model of its arguments, and the laws of the policy are proved
//! from those contracts. Regular expressions and IP networks are evaluated by
//! the `regex` and `ipnet` crates behind a small number of trusted wrappers,
//! each documented where it stands.

pub mod engine;
pub mod error;
pub mod laws;
pub mod network;
pub mod pattern;
pub mod port;
pub mod protocol;
pub mod request;
pub mod text;
pub mod types;
pub mod validation;

pub use error::{ConfigError, RuleError};
pub use network::{default_cidr, Cidr, IpAddress};
pub use pattern::default_host;
pub use port::{parse_port, parse_port_range, parse_port_ranges, PortRange};
pub use protocol::{LocalProtocol, ReverseTunnelConfigProtocol, TunnelConfigProtocol};
pub use request::{Decision, DenyReason, Direction, Outcome, TunnelRequest};
pub use types::{
    AllowConfig, AllowReverseTunnelConfig, AllowTunnelConfig, MatchConfig, RestrictionConfig,
    RestrictionsRules,
};
pub use validation::non_empty_vec;
