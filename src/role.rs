use vstd::prelude::*;
use crate::text::text_eq;

verus! {

/// The closed set of roles a user can hold.
#[derive(Debug, Clone, Copy, PartialEq, Eq, Structural)]
pub enum UserRole {
    Admin,
    User,
}

/// The wire name of a role.
pub open spec fn role_name(r: UserRole) -> Seq<char> {
    match r {
        UserRole::Admin => "admin"@,
        UserRole::User => "user"@,
    }
}

/// The role whose wire name is `s`, if any; no other text names a role.
pub open spec fn role_named(s: Seq<char>) -> Option<UserRole> {
    if s == "admin"@ {
        Some(UserRole::Admin)
    } else if s == "user"@ {
        Some(UserRole::User)
    } else {
        None
    }
}

pub proof fn lemma_role_names_distinct()
    ensures
        role_name(UserRole::Admin) != role_name(UserRole::User),
{
    reveal_strlit("admin");
    reveal_strlit("user");
    assert(role_name(UserRole::Admin).len() != role_name(UserRole::User).len());
}

/// Decoding a role's wire name gives back that role.
pub proof fn lemma_role_name_round_trip(r: UserRole)
    ensures
        role_named(role_name(r)) == Some(r),
{
    lemma_role_names_distinct();
}

impl UserRole {
    /// The role's wire name (`"admin"` or `"user"`).
    pub fn to_string(&self) -> (r: String)
        ensures
            r@ == role_name(*self),
    {
        match self {
            UserRole::Admin => String::from_str("admin"),
            UserRole::User => String::from_str("user"),
        }
    }

    /// Strict decoding of a role claim: only the two exact wire names are roles.
    pub fn parse(s: &str) -> (r: Option<UserRole>)
        ensures
            r == role_named(s@),
    {
        if text_eq(s, "admin") {
            Some(UserRole::Admin)
        } else if text_eq(s, "user") {
            Some(UserRole::User)
        } else {
            None
        }
    }
}

} // verus!
