use vstd::prelude::*;
use vstd::string::StringExecFns;

use crate::text::str_eq;
use crate::text::str_new;

verus! {

/// A permission at the API level, granted to a user as a whole.
#[derive(Debug, Clone, Copy, PartialEq, Eq, Structural)]
pub enum Permission {
    CreateOrganization,
    JoinOrganization,
    ReadOrganization,
    UpdateOrganization,
    DeleteOrganization,
    RequestPermissionForOrganization,
    InviteUser,
    UpdateUser,
    DeleteUser,
}

impl Permission {
    /// The textual form of the permission.
    pub open spec fn spec_str(self) -> Seq<char> {
        match self {
            Permission::CreateOrganization => "create:organization"@,
            Permission::JoinOrganization => "join:organization"@,
            Permission::ReadOrganization => "read:organization"@,
            Permission::UpdateOrganization => "update:organization"@,
            Permission::DeleteOrganization => "delete:organization"@,
            Permission::RequestPermissionForOrganization => "request_permission:organization"@,
            Permission::InviteUser => "invite:user"@,
            Permission::UpdateUser => "update:user"@,
            Permission::DeleteUser => "delete:user"@,
        }
    }

    /// The permission written as the given text, if there is one.
    pub fn from_str(value: &str) -> (r: Result<Permission, String>)
        ensures
            match r {
                Ok(p) => p.spec_str() == value@,
                Err(m) => (forall|p: Permission| p.spec_str() != value@) && m@
                    == "unknown permission '"@ + value@ + "'"@,
            },
    {
        if str_eq(value, "create:organization") {
            Ok(Permission::CreateOrganization)
        } else if str_eq(value, "join:organization") {
            Ok(Permission::JoinOrganization)
        } else if str_eq(value, "read:organization") {
            Ok(Permission::ReadOrganization)
        } else if str_eq(value, "update:organization") {
            Ok(Permission::UpdateOrganization)
        } else if str_eq(value, "delete:organization") {
            Ok(Permission::DeleteOrganization)
        } else if str_eq(value, "request_permission:organization") {
            Ok(Permission::RequestPermissionForOrganization)
        } else if str_eq(value, "invite:user") {
            Ok(Permission::InviteUser)
        } else if str_eq(value, "update:user") {
            Ok(Permission::UpdateUser)
        } else if str_eq(value, "delete:user") {
            Ok(Permission::DeleteUser)
        } else {
            let mut message = str_new("unknown permission '");
            message.append(value);
            message.append("'");
            Err(message)
        }
    }

    /// The permission written out.
    pub fn to_string(&self) -> (r: String)
        ensures
            r@ == self.spec_str(),
    {
        match self {
            Permission::CreateOrganization => str_new("create:organization"),
            Permission::JoinOrganization => str_new("join:organization"),
            Permission::ReadOrganization => str_new("read:organization"),
            Permission::UpdateOrganization => str_new("update:organization"),
            Permission::DeleteOrganization => str_new("delete:organization"),
            Permission::RequestPermissionForOrganization => str_new(
                "request_permission:organization",
            ),
            Permission::InviteUser => str_new("invite:user"),
            Permission::UpdateUser => str_new("update:user"),
            Permission::DeleteUser => str_new("delete:user"),
        }
    }
}

/// The names of the API-level permissions granted to the creator of an
/// organization.
pub open spec fn creator_permission_strings() -> Seq<Seq<char>> {
    seq![
        "read:organization"@,
        "update:organization"@,
        "delete:organization"@,
        "request_permission:organization"@,
        "invite:user"@,
        "update:user"@,
        "delete:user"@,
    ]
}

/// Every API-level permission the creator of an organization receives.
pub fn organization_creator_permissions() -> (r: Vec<String>)
    ensures
        r.deep_view() == creator_permission_strings(),
{
    let mut r: Vec<String> = Vec::new();
    r.push(Permission::ReadOrganization.to_string());
    r.push(Permission::UpdateOrganization.to_string());
    r.push(Permission::DeleteOrganization.to_string());
    r.push(Permission::RequestPermissionForOrganization.to_string());
    r.push(Permission::InviteUser.to_string());
    r.push(Permission::UpdateUser.to_string());
    r.push(Permission::DeleteUser.to_string());
    proof {
        assert(r.deep_view() =~~= creator_permission_strings());
    }
    r
}

} // verus!
