//! Role-based access control.
use vstd::prelude::*;

use crate::text::str_is;

verus! {

/// Roles a user can hold.
#[derive(Debug, Clone, Copy, PartialEq, Eq, Structural)]
pub enum Role {
    Admin,
    Operator,
    Viewer,
}

/// The role named by a text, if any.
pub open spec fn role_named(s: Seq<char>) -> Option<Role> {
    if s == "admin"@ {
        Some(Role::Admin)
    } else if s == "operator"@ {
        Some(Role::Operator)
    } else if s == "viewer"@ {
        Some(Role::Viewer)
    } else {
        None
    }
}

/// The name of a role.
pub open spec fn role_name(r: Role) -> Seq<char> {
    match r {
        Role::Admin => "admin"@,
        Role::Operator => "operator"@,
        Role::Viewer => "viewer"@,
    }
}

impl Role {
    /// Parses a role name (`admin`, `operator` or `viewer`).
    pub fn from_str(s: &str) -> (r: Option<Role>)
        ensures
            r == role_named(s@),
    {
        if str_is(s, "admin") {
            Some(Role::Admin)
        } else if str_is(s, "operator") {
            Some(Role::Operator)
        } else if str_is(s, "viewer") {
            Some(Role::Viewer)
        } else {
            None
        }
    }

    /// The name of the role.
    pub fn as_str(&self) -> (r: &'static str)
        ensures
            r@ == role_name(*self),
    {
        proof {
            reveal_strlit("admin");
            reveal_strlit("operator");
            reveal_strlit("viewer");
        }
        match self {
            Role::Admin => "admin",
            Role::Operator => "operator",
            Role::Viewer => "viewer",
        }
    }
}

/// Parsing the name of a role gives the role back.
pub proof fn role_name_roundtrip(r: Role)
    ensures
        role_named(role_name(r)) == Some(r),
{
    reveal_strlit("admin");
    reveal_strlit("operator");
    reveal_strlit("viewer");
    assert("admin"@.len() == 5 && "operator"@.len() == 8 && "viewer"@.len() == 6);
}

/// Middleware that admits only users holding one of the listed roles.
pub struct RequireRole {
    required_roles: Vec<Role>,
}

/// What the middleware answers.
#[derive(Debug, PartialEq, Eq)]
pub enum RbacDecision {
    /// Pass the request on.
    Allow,
    /// 403 with the given message.
    Forbidden(&'static str),
    /// 401 with the given message.
    Unauthorized(&'static str),
}

impl RequireRole {
    /// The roles the middleware admits.
    pub closed spec fn roles(&self) -> Seq<Role> {
        self.required_roles@
    }

    /// A middleware admitting the given roles.
    pub fn new(roles: Vec<Role>) -> (r: Self)
        ensures
            r.roles() == roles@,
    {
        RequireRole { required_roles: roles }
    }

    /// Admits administrators only.
    pub fn admin() -> (r: Self)
        ensures
            r.roles() == seq![Role::Admin],
    {
        let mut v = Vec::new();
        v.push(Role::Admin);
        assert(v@ =~= seq![Role::Admin]);
        Self::new(v)
    }

    /// Admits administrators and operators.
    pub fn operator() -> (r: Self)
        ensures
            r.roles() == seq![Role::Admin, Role::Operator],
    {
        let mut v = Vec::new();
        v.push(Role::Admin);
        v.push(Role::Operator);
        assert(v@ =~= seq![Role::Admin, Role::Operator]);
        Self::new(v)
    }

    /// Admits any authenticated role.
    pub fn viewer() -> (r: Self)
        ensures
            r.roles() == seq![Role::Admin, Role::Operator, Role::Viewer],
    {
        let mut v = Vec::new();
        v.push(Role::Admin);
        v.push(Role::Operator);
        v.push(Role::Viewer);
        assert(v@ =~= seq![Role::Admin, Role::Operator, Role::Viewer]);
        Self::new(v)
    }

    /// The roles the middleware admits.
    pub fn required_roles(&self) -> (r: &Vec<Role>)
        ensures
            r@ == self.roles(),
    {
        &self.required_roles
    }

    /// Whether `role` is among the admitted roles.
    pub fn admits(&self, role: Role) -> (r: bool)
        ensures
            r == self.roles().contains(role),
    {
        let mut i: usize = 0;
        while i < self.required_roles.len()
            invariant
                i <= self.required_roles@.len(),
                forall|j: int| 0 <= j < i ==> self.required_roles@[j] != role,
            decreases self.required_roles@.len() - i,
        {
            if self.required_roles[i] == role {
                return true;
            }
            i += 1;
        }
        false
    }

    /// The answer for a request whose authenticated user holds the role named
    /// `role` (`None` when the request carries no authenticated user).
    pub fn decide(&self, role: Option<&str>) -> (r: RbacDecision)
        ensures
            match role {
                None => r == RbacDecision::Unauthorized("Authentication required"),
                Some(name) => match role_named(name@) {
                    None => r == RbacDecision::Forbidden("Invalid user role"),
                    Some(rr) => if self.roles().contains(rr) {
                        r == RbacDecision::Allow
                    } else {
                        r == RbacDecision::Forbidden("Insufficient permissions")
                    },
                },
            },
    {
        match role {
            None => RbacDecision::Unauthorized("Authentication required"),
            Some(name) => match Role::from_str(name) {
                None => RbacDecision::Forbidden("Invalid user role"),
                Some(rr) => if self.admits(rr) {
                    RbacDecision::Allow
                } else {
                    RbacDecision::Forbidden("Insufficient permissions")
                },
            },
        }
    }
}

/// Each broader requirement admits every role the narrower one admits.
pub proof fn role_requirements_nest(r: Role)
    ensures
        seq![Role::Admin].contains(r) ==> seq![Role::Admin, Role::Operator].contains(r),
        seq![Role::Admin, Role::Operator].contains(r) ==> seq![
            Role::Admin,
            Role::Operator,
            Role::Viewer,
        ].contains(r),
        seq![Role::Admin, Role::Operator, Role::Viewer].contains(r),
{
    let a = seq![Role::Admin];
    let b = seq![Role::Admin, Role::Operator];
    let c = seq![Role::Admin, Role::Operator, Role::Viewer];
    match r {
        Role::Admin => {
            assert(c[0] == r);
            assert(b[0] == r);
        },
        Role::Operator => {
            assert(c[1] == r);
            assert(b[1] == r);
            assert(!a.contains(r)) by {
                if a.contains(r) {
                    let i = choose|i: int| 0 <= i < a.len() && a[i] == r;
                    assert(a[i] == Role::Admin);
                }
            }
        },
        Role::Viewer => {
            assert(c[2] == r);
            assert(!a.contains(r)) by {
                if a.contains(r) {
                    let i = choose|i: int| 0 <= i < a.len() && a[i] == r;
                    assert(a[i] == Role::Admin);
                }
            }
            assert(!b.contains(r)) by {
                if b.contains(r) {
                    let i = choose|i: int| 0 <= i < b.len() && b[i] == r;
                    assert(i == 0 || i == 1);
                }
            }
        },
    }
}

} // verus!
