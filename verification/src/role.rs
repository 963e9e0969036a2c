//! Account roles and their ordering.

use vstd::prelude::*;

verus! {

/// The role of an account. Roles are ordered `Customer < Operator < Admin`.
#[derive(Debug, Clone, Copy, PartialEq, Eq, Structural)]
pub enum UserRole {
    Customer,
    Operator,
    Admin,
}

impl UserRole {
    /// The numeric rank of a role: 1 for `Customer`, 2 for `Operator`, 3 for `Admin`.
    pub open spec fn rank(self) -> int {
        match self {
            UserRole::Customer => 1,
            UserRole::Operator => 2,
            UserRole::Admin => 3,
        }
    }

    /// Whether a holder of `self` may do what `required` may do.
    pub open spec fn at_least(self, required: UserRole) -> bool {
        self.rank() >= required.rank()
    }

    /// The numeric level of the role.
    pub fn level(&self) -> (l: i32)
        ensures
            l == self.rank(),
    {
        match self {
            UserRole::Customer => 1,
            UserRole::Operator => 2,
            UserRole::Admin => 3,
        }
    }

    /// Whether `self` is at least as privileged as `required`.
    pub fn has_minimum_role(&self, required: &UserRole) -> (b: bool)
        ensures
            b == self.at_least(*required),
    {
        self.level() >= required.level()
    }
}

impl Default for UserRole {
    /// New accounts are customers unless a role is given.
    fn default() -> (r: Self)
        ensures
            r == UserRole::Customer,
    {
        UserRole::Customer
    }
}

/// Every role reaches its own level.
pub proof fn lemma_role_reflexive(a: UserRole)
    ensures
        a.at_least(a),
{
}

/// The role ordering is transitive.
pub proof fn lemma_role_transitive(a: UserRole, b: UserRole, c: UserRole)
    requires
        a.at_least(b),
        b.at_least(c),
    ensures
        a.at_least(c),
{
}

/// Any two roles are comparable.
pub proof fn lemma_role_total(a: UserRole, b: UserRole)
    ensures
        a.at_least(b) || b.at_least(a),
{
}

/// Two roles that each reach the other are the same role: levels tell roles apart.
pub proof fn lemma_role_antisymmetric(a: UserRole, b: UserRole)
    requires
        a.at_least(b),
        b.at_least(a),
    ensures
        a == b,
{
}

/// `Admin` reaches every role, and every role reaches `Customer`, the default role.
pub proof fn lemma_role_bounds(a: UserRole)
    ensures
        UserRole::Admin.at_least(a),
        a.at_least(UserRole::Customer),
        UserRole::Operator.at_least(UserRole::Customer),
        !UserRole::Customer.at_least(UserRole::Operator),
        !UserRole::Operator.at_least(UserRole::Admin),
{
}

} // verus!
