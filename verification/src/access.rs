use vstd::prelude::*;
use crate::models::{Claims, UserRole};
use crate::text::same_text;

verus! {

/// A token role that may manage staff: super admins and admins.
pub open spec fn grants_admin(role: Seq<char>) -> bool {
    role == "superadmin"@ || role == "admin"@
}

/// A token role that may do everything: super admins only.
pub open spec fn grants_super(role: Seq<char>) -> bool {
    role == "superadmin"@
}

/// Whether the token's role may manage staff.
pub fn has_admin_access(claims: &Claims) -> (r: bool)
    ensures
        r == grants_admin(claims.role@),
{
    same_text(claims.role.as_str(), "superadmin") || same_text(claims.role.as_str(), "admin")
}

/// Whether the token belongs to a super admin.
pub fn is_super_admin(claims: &Claims) -> (r: bool)
    ensures
        r == grants_super(claims.role@),
{
    same_text(claims.role.as_str(), "superadmin")
}

/// What a caller's token allows, read once: whether it is a super admin,
/// whether it has admin access, and its subject. `None` without a token.
pub fn caller_access(claims: Option<&Claims>) -> (r: Option<(bool, bool, String)>)
    ensures
        match claims {
            None => r is None,
            Some(c) => r matches Some(a) && a.0 == grants_super(c.role@) && a.1 == grants_admin(
                c.role@,
            ) && a.2@ == c.sub@,
        },
{
    match claims {
        None => None,
        Some(c) => Some((is_super_admin(c), has_admin_access(c), c.sub.clone())),
    }
}

/// A super admin always has admin access.
pub proof fn super_admin_has_admin_access(role: Seq<char>)
    ensures
        grants_super(role) ==> grants_admin(role),
{
}

/// No two roles share a name, so a role is known from its name.
pub proof fn role_names_are_distinct(a: UserRole, b: UserRole)
    ensures
        a.name() == b.name() ==> a == b,
{
    reveal_strlit("superadmin");
    reveal_strlit("admin");
    reveal_strlit("editor");
    reveal_strlit("viewer");
    assert("superadmin"@.len() != "admin"@.len());
    assert("superadmin"@.len() != "editor"@.len());
    assert("superadmin"@.len() != "viewer"@.len());
    assert("admin"@[0] != "editor"@[0]);
    assert("admin"@[0] != "viewer"@[0]);
    assert("editor"@[0] != "viewer"@[0]);
}

/// A token that names role `r` has admin access exactly when `r` is a super
/// admin or an admin, and is a super admin's exactly when `r` is.
pub proof fn role_grants(r: UserRole)
    ensures
        grants_admin(r.name()) <==> (r == UserRole::SuperAdmin || r == UserRole::Admin),
        grants_super(r.name()) <==> r == UserRole::SuperAdmin,
{
    role_names_are_distinct(r, UserRole::SuperAdmin);
    role_names_are_distinct(r, UserRole::Admin);
}

} // verus!
