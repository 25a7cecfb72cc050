//! Reasons for which a rule set is refused before it is put to use.

use vstd::prelude::*;

verus! {

/// What is wrong with a piece of configuration.
#[derive(Clone, Copy, Debug, PartialEq, Eq, Structural)]
pub enum ConfigError {
    /// A list that has to name at least one entry names none.
    EmptyList,
    /// A port is neither a 16-bit decimal number nor two of them around `..`.
    InvalidPort,
    /// A regular expression does not compile.
    InvalidPattern,
    /// A network is not in CIDR notation, or its prefix is longer than its
    /// addresses.
    InvalidNetwork,
}

impl ConfigError {
    /// A short description for the operator.
    pub fn message(&self) -> (text: &'static str)
        ensures
            text@ == (match *self {
                ConfigError::EmptyList => "List must not be empty"@,
                ConfigError::InvalidPort => "invalid port or port range"@,
                ConfigError::InvalidPattern => "invalid regular expression"@,
                ConfigError::InvalidNetwork => "invalid IP network"@,
            }),
    {
        match self {
            ConfigError::EmptyList => "List must not be empty",
            ConfigError::InvalidPort => "invalid port or port range",
            ConfigError::InvalidPattern => "invalid regular expression",
            ConfigError::InvalidNetwork => "invalid IP network",
        }
    }
}

/// A configuration error together with the position, in the rule set, of the
/// rule it was found in.
#[derive(Clone, Copy, Debug, PartialEq, Eq, Structural)]
pub struct RuleError {
    pub rule: usize,
    pub error: ConfigError,
}

} // verus!
