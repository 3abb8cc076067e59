//! The roles a user can hold.

use vstd::prelude::*;

verus! {

/// What a user is allowed to do. The lower-case name of a role is the form in
/// which it is stored and compared.
#[derive(Debug, Clone, Copy, PartialEq, Eq, Structural)]
pub enum UserRole {
    Admin,
    User,
}

impl UserRole {
    /// The stored name of the role, as a sequence of characters.
    pub open spec fn name(self) -> Seq<char> {
        match self {
            UserRole::Admin => "admin"@,
            UserRole::User => "user"@,
        }
    }

    /// The stored name of the role.
    pub fn to_str(&self) -> (name: &'static str)
        ensures
            name@ == self.name(),
    {
        match self {
            UserRole::Admin => "admin",
            UserRole::User => "user",
        }
    }
}

/// Two roles with the same stored name are the same role.
pub proof fn lemma_role_name_injective(a: UserRole, b: UserRole)
    requires
        a.name() == b.name(),
    ensures
        a == b,
{
    reveal_strlit("admin");
    reveal_strlit("user");
    assert("admin"@.len() == 5 && "user"@.len() == 4);
}

} // verus!
