//! What a rule set has to satisfy before it is put to use, and the check for it.

use vstd::prelude::*;

use crate::error::{ConfigError, RuleError};
use crate::network::Cidr;
use crate::pattern::{is_valid_pattern, regex_compiles};
use crate::types::{
    AllowConfig, AllowModel, MatchConfig, MatchModel, RestrictionConfig, RestrictionsRules,
    RuleModel,
};

verus! {

/// Every network of the list has a prefix that fits its family.
pub open spec fn networks_well_formed(nets: Seq<Cidr>) -> bool {
    forall|i: int| 0 <= i < nets.len() ==> (#[trigger] nets[i]).well_formed()
}

impl MatchModel {
    /// The predicate's pattern, if it has one, compiles.
    pub open spec fn pattern_compiles(self) -> bool {
        match self {
            MatchModel::Any => true,
            MatchModel::PathPrefix(pattern) => regex_compiles(pattern),
        }
    }
}

impl AllowModel {
    /// The permission's host pattern, if it has one, compiles.
    pub open spec fn pattern_compiles(self) -> bool {
        match self {
            AllowModel::ReverseTunnel(_) => true,
            AllowModel::Tunnel(allow) => regex_compiles(allow.host),
        }
    }

    pub open spec fn networks(self) -> Seq<Cidr> {
        match self {
            AllowModel::ReverseTunnel(allow) => allow.cidr,
            AllowModel::Tunnel(allow) => allow.cidr,
        }
    }
}

impl RuleModel {
    /// Every pattern of the rule compiles.
    pub open spec fn patterns_compile(self) -> bool {
        &&& forall|i: int| 0 <= i < self.matchers.len() ==> (#[trigger] self.matchers[i]).pattern_compiles()
        &&& forall|i: int| 0 <= i < self.allow.len() ==> (#[trigger] self.allow[i]).pattern_compiles()
    }

    /// Every network of the rule has a prefix that fits its family.
    pub open spec fn all_networks_well_formed(self) -> bool {
        forall|i: int|
            0 <= i < self.allow.len() ==> networks_well_formed(
                (#[trigger] self.allow[i]).networks(),
            )
    }

    /// What is wrong with the rule, if anything. A rule without a match
    /// predicate is reported as that; otherwise a pattern that does not compile
    /// is reported before a network that is not well formed.
    pub open spec fn defect(self) -> Option<ConfigError> {
        if self.matchers.len() == 0 {
            Some(ConfigError::EmptyList)
        } else if !self.patterns_compile() {
            Some(ConfigError::InvalidPattern)
        } else if !self.all_networks_well_formed() {
            Some(ConfigError::InvalidNetwork)
        } else {
            None
        }
    }

    pub open spec fn well_formed(self) -> bool {
        self.defect() is None
    }
}

/// A rule set is well formed when each of its rules is.
pub open spec fn rules_well_formed(rules: Seq<RuleModel>) -> bool {
    forall|i: int| 0 <= i < rules.len() ==> (#[trigger] rules[i]).well_formed()
}

/// Hands back a list that holds at least one entry, and refuses an empty one.
pub fn non_empty_vec<T>(list: Vec<T>) -> (checked: Result<Vec<T>, ConfigError>)
    ensures
        checked == (if list@.len() == 0 {
            Err::<Vec<T>, ConfigError>(ConfigError::EmptyList)
        } else {
            Ok(list)
        }),
{
    if list.len() == 0 {
        Err(ConfigError::EmptyList)
    } else {
        Ok(list)
    }
}

fn check_networks(nets: &Vec<Cidr>) -> (ok: bool)
    ensures
        ok == networks_well_formed(nets@),
{
    let mut i: usize = 0;
    while i < nets.len()
        invariant
            i <= nets.len(),
            forall|k: int| 0 <= k < i ==> (#[trigger] nets@[k]).well_formed(),
        decreases nets.len() - i,
    {
        if !nets[i].is_well_formed() {
            return false;
        }
        i += 1;
    }
    true
}

impl MatchConfig {
    pub fn pattern_compiles(&self) -> (ok: bool)
        ensures
            ok == self@.pattern_compiles(),
    {
        match self {
            MatchConfig::Any => true,
            MatchConfig::PathPrefix(pattern) => is_valid_pattern(pattern.as_str()),
        }
    }
}

impl AllowConfig {
    pub fn pattern_compiles(&self) -> (ok: bool)
        ensures
            ok == self@.pattern_compiles(),
    {
        match self {
            AllowConfig::ReverseTunnel(_) => true,
            AllowConfig::Tunnel(allow) => is_valid_pattern(allow.host.as_str()),
        }
    }

    pub fn networks_well_formed(&self) -> (ok: bool)
        ensures
            ok == networks_well_formed(self@.networks()),
    {
        match self {
            AllowConfig::ReverseTunnel(allow) => check_networks(&allow.cidr),
            AllowConfig::Tunnel(allow) => check_networks(&allow.cidr),
        }
    }
}

impl RestrictionConfig {
    fn patterns_compile(&self) -> (ok: bool)
        ensures
            ok == self@.patterns_compile(),
    {
        let mut i: usize = 0;
        while i < self.matchers.len()
            invariant
                i <= self.matchers.len(),
                forall|k: int| 0 <= k < i ==> (#[trigger] self@.matchers[k]).pattern_compiles(),
            decreases self.matchers.len() - i,
        {
            assert(self@.matchers[i as int] == self.matchers@[i as int]@);
            if !self.matchers[i].pattern_compiles() {
                return false;
            }
            i += 1;
        }
        let mut j: usize = 0;
        while j < self.allow.len()
            invariant
                j <= self.allow.len(),
                forall|k: int|
                    0 <= k < self@.matchers.len()
                        ==> (#[trigger] self@.matchers[k]).pattern_compiles(),
                forall|k: int| 0 <= k < j ==> (#[trigger] self@.allow[k]).pattern_compiles(),
            decreases self.allow.len() - j,
        {
            assert(self@.allow[j as int] == self.allow@[j as int]@);
            if !self.allow[j].pattern_compiles() {
                return false;
            }
            j += 1;
        }
        true
    }

    fn all_networks_well_formed(&self) -> (ok: bool)
        ensures
            ok == self@.all_networks_well_formed(),
    {
        let mut i: usize = 0;
        while i < self.allow.len()
            invariant
                i <= self.allow.len(),
                forall|k: int| 0 <= k < i ==> networks_well_formed((#[trigger] self@.allow[k]).networks()),
            decreases self.allow.len() - i,
        {
            assert(self@.allow[i as int] == self.allow@[i as int]@);
            if !self.allow[i].networks_well_formed() {
                return false;
            }
            i += 1;
        }
        true
    }

    /// Checks one rule, and says what is wrong with it if anything is.
    pub fn check(&self) -> (checked: Result<(), ConfigError>)
        ensures
            checked == (match self@.defect() {
                Some(e) => Err::<(), ConfigError>(e),
                None => Ok(()),
            }),
    {
        if self.matchers.len() == 0 {
            Err(ConfigError::EmptyList)
        } else if !self.patterns_compile() {
            Err(ConfigError::InvalidPattern)
        } else if !self.all_networks_well_formed() {
            Err(ConfigError::InvalidNetwork)
        } else {
            Ok(())
        }
    }
}

impl RestrictionsRules {
    /// Checks the rule set before it is put to use. A set that is not well
    /// formed is refused with the position of its first defective rule and that
    /// rule's defect.
    pub fn validate(&self) -> (checked: Result<(), RuleError>)
        ensures
            match checked {
                Ok(_) => rules_well_formed(self@),
                Err(e) => {
                    &&& e.rule < self@.len()
                    &&& self@[e.rule as int].defect() == Some(e.error)
                    &&& forall|k: int| 0 <= k < e.rule ==> (#[trigger] self@[k]).well_formed()
                },
            },
    {
        let mut i: usize = 0;
        while i < self.restrictions.len()
            invariant
                i <= self.restrictions.len(),
                self@.len() == self.restrictions.len(),
                forall|k: int| 0 <= k < i ==> (#[trigger] self@[k]).well_formed(),
            decreases self.restrictions.len() - i,
        {
            assert(self@[i as int] == self.restrictions@[i as int]@);
            match self.restrictions[i].check() {
                Ok(_) => {},
                Err(error) => {
                    return Err(RuleError { rule: i, error });
                },
            }
            i += 1;
        }
        Ok(())
    }
}

} // verus!
