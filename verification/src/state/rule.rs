//! Fine-grained permission rules, keyed by a namespace / resource / action
//! triple and demanding a least permission level.

use vstd::prelude::*;

use crate::state::pubkey::Pubkey;
use crate::utils::strings::valid_rule_string;

verus! {

/// The namespaces of the meta-operations that mutate policy itself. Adding or
/// deleting a rule must be authorized on two independent axes (the coarse
/// namespace axis and the specific resource/action axis), each a namespace of
/// its own; assigning and deleting roles are namespaces as well.
#[derive(Clone, Copy, Debug, PartialEq, Eq, Structural)]
pub enum Namespaces {
    AddRuleNSRole,
    AddRuleResourcePerm,
    DeleteRuleNSRole,
    DeleteRuleResourcePerm,
    AssignRole,
    DeleteAssignRole,
}

impl Namespaces {
    /// The wire encoding of the namespace, stored in `Rule::namespace`.
    pub open spec fn spec_value(self) -> u8 {
        match self {
            Namespaces::AddRuleNSRole => 0,
            Namespaces::AddRuleResourcePerm => 1,
            Namespaces::DeleteRuleNSRole => 2,
            Namespaces::DeleteRuleResourcePerm => 3,
            Namespaces::AssignRole => 4,
            Namespaces::DeleteAssignRole => 5,
        }
    }

    #[verifier::when_used_as_spec(spec_value)]
    pub fn value(self) -> (v: u8)
        ensures
            v == self.spec_value(),
    {
        match self {
            Namespaces::AddRuleNSRole => 0,
            Namespaces::AddRuleResourcePerm => 1,
            Namespaces::DeleteRuleNSRole => 2,
            Namespaces::DeleteRuleResourcePerm => 3,
            Namespaces::AssignRole => 4,
            Namespaces::DeleteAssignRole => 5,
        }
    }
}

/// The fields a caller supplies to create a rule.
#[derive(Clone, Debug, PartialEq)]
pub struct RuleData {
    pub namespace: u8,
    pub permission_level: u8,
    pub resource: String,
    pub permission: String,
    pub expires_at: Option<i64>,
}

/// A fine-grained permission entry scoped to one file. A request matches when
/// its namespace equals `namespace` exactly, its resource matches `resource`
/// under wildcard semantics, and the level it presents is at least
/// `permission_level`. An expiry, when set, denies from that instant on.
#[derive(Clone, Debug, PartialEq)]
pub struct Rule {
    pub file_id: Pubkey,
    pub namespace: u8,
    pub permission_level: u8,
    pub resource: String,
    pub permission: String,
    pub expires_at: Option<i64>,
    pub bump: u8,
}

impl Rule {
    /// Rule records keep their strings in the validated shape (1 to 16
    /// alphanumeric characters or the lone wildcard) and their level within
    /// the ordinal range.
    pub open spec fn wf(self) -> bool {
        &&& valid_rule_string(self.resource@)
        &&& valid_rule_string(self.permission@)
        &&& 1 <= self.permission_level <= 3
    }

    /// An exact copy of the record.
    pub fn duplicate(&self) -> (c: Rule)
        ensures
            c == *self,
    {
        Rule {
            file_id: self.file_id,
            namespace: self.namespace,
            permission_level: self.permission_level,
            resource: self.resource.clone(),
            permission: self.permission.clone(),
            expires_at: self.expires_at,
            bump: self.bump,
        }
    }
}

/// A change notification for external cache consumers.
#[derive(Clone, Copy, Debug, PartialEq, Eq, Structural)]
pub struct RulesChanged {
    pub time: i64,
    pub file_id: Pubkey,
}

} // verus!
