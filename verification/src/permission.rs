//! Roles of the participants of a shared session and what each may do.
use vstd::prelude::*;

use crate::text::{chars_of, str_eq};

verus! {

/// A participant's role inside a shared terminal session.
#[derive(Debug, Clone, Copy, PartialEq, Eq, Hash, Structural)]
pub enum Role {
    Owner,
    Operator,
    Viewer,
}

/// Lower-case wire and storage name of a role.
pub open spec fn role_name(r: Role) -> Seq<char> {
    match r {
        Role::Owner => "owner"@,
        Role::Operator => "operator"@,
        Role::Viewer => "viewer"@,
    }
}

impl Role {
    /// Owners and operators may type into the terminal.
    pub open spec fn spec_can_input(self) -> bool {
        self is Owner || self is Operator
    }

    /// Owners and operators may resize the terminal.
    pub open spec fn spec_can_resize(self) -> bool {
        self is Owner || self is Operator
    }

    /// Only the owner manages participants.
    pub open spec fn spec_can_manage_participants(self) -> bool {
        self is Owner
    }

    /// Only the owner closes the session.
    pub open spec fn spec_can_close_session(self) -> bool {
        self is Owner
    }

    pub fn can_input(&self) -> (b: bool)
        ensures
            b == self.spec_can_input(),
    {
        matches!(self, Role::Owner | Role::Operator)
    }

    pub fn can_resize(&self) -> (b: bool)
        ensures
            b == self.spec_can_resize(),
    {
        matches!(self, Role::Owner | Role::Operator)
    }

    pub fn can_manage_participants(&self) -> (b: bool)
        ensures
            b == self.spec_can_manage_participants(),
    {
        matches!(self, Role::Owner)
    }

    pub fn can_close_session(&self) -> (b: bool)
        ensures
            b == self.spec_can_close_session(),
    {
        matches!(self, Role::Owner)
    }

    /// The lower-case name of the role; this is also its display form.
    pub fn as_str(&self) -> (s: &'static str)
        ensures
            s@ == role_name(*self),
    {
        proof {
            reveal_strlit("owner");
            reveal_strlit("operator");
            reveal_strlit("viewer");
        }
        match self {
            Role::Owner => "owner",
            Role::Operator => "operator",
            Role::Viewer => "viewer",
        }
    }

    /// Parses the lower-case name of a role, as stored in the database.
    pub fn parse(s: &str) -> (r: Option<Role>)
        ensures
            r matches Some(role) ==> role_name(role) == s@,
            r is None ==> (forall|role: Role| role_name(role) != s@),
    {
        if str_eq(s, "owner") {
            Some(Role::Owner)
        } else if str_eq(s, "operator") {
            Some(Role::Operator)
        } else if str_eq(s, "viewer") {
            Some(Role::Viewer)
        } else {
            proof {
                reveal_strlit("owner");
                reveal_strlit("operator");
                reveal_strlit("viewer");
                assert forall|role: Role| role_name(role) != s@ by {
                    match role {
                        Role::Owner => {},
                        Role::Operator => {},
                        Role::Viewer => {},
                    }
                }
            }
            None
        }
    }
}

/// Distinct roles have distinct names, so `parse(as_str(r))` gives back `r`.
pub proof fn lemma_role_name_injective(a: Role, b: Role)
    ensures
        role_name(a) == role_name(b) ==> a == b,
{
    reveal_strlit("owner");
    reveal_strlit("operator");
    reveal_strlit("viewer");
    if role_name(a) == role_name(b) {
        assert(role_name(a).len() == role_name(b).len());
    }
}

} // verus!
