use vstd::prelude::*;

use crate::text::str_eq;
use crate::text::str_new;

verus! {

/// A permission a user holds within one organization. The names are shorter
/// than the API-level ones: a membership record speaks of the organization it
/// already belongs to.
#[derive(Debug, Clone, Copy, PartialEq, Eq, Structural)]
pub enum OrganizationPermission {
    ReadOrganization,
    UpdateOrganization,
    DeleteOrganization,
    RequestPermissionForOrganization,
    InviteUser,
    UpdateUser,
    DeleteUser,
}

impl OrganizationPermission {
    /// The textual form of the permission.
    pub open spec fn spec_str(self) -> Seq<char> {
        match self {
            OrganizationPermission::ReadOrganization => "read:org"@,
            OrganizationPermission::UpdateOrganization => "update:org"@,
            OrganizationPermission::DeleteOrganization => "delete:org"@,
            OrganizationPermission::RequestPermissionForOrganization => "request_permission:org"@,
            OrganizationPermission::InviteUser => "invite:user"@,
            OrganizationPermission::UpdateUser => "update:user"@,
            OrganizationPermission::DeleteUser => "delete:user"@,
        }
    }

    /// The permission written as the given text, if there is one.
    pub fn from_str(value: &str) -> (r: Result<OrganizationPermission, String>)
        ensures
            match r {
                Ok(p) => p.spec_str() == value@,
                Err(m) => (forall|p: OrganizationPermission| p.spec_str() != value@) && m@
                    == "unknown permission '"@ + value@ + "'"@,
            },
    {
        if str_eq(value, "read:org") {
            Ok(OrganizationPermission::ReadOrganization)
        } else if str_eq(value, "update:org") {
            Ok(OrganizationPermission::UpdateOrganization)
        } else if str_eq(value, "delete:org") {
            Ok(OrganizationPermission::DeleteOrganization)
        } else if str_eq(value, "request_permission:org") {
            Ok(OrganizationPermission::RequestPermissionForOrganization)
        } else if str_eq(value, "invite:user") {
            Ok(OrganizationPermission::InviteUser)
        } else if str_eq(value, "update:user") {
            Ok(OrganizationPermission::UpdateUser)
        } else if str_eq(value, "delete:user") {
            Ok(OrganizationPermission::DeleteUser)
        } else {
            let mut message = str_new("unknown permission '");
            message.append(value);
            message.append("'");
            Err(message)
        }
    }

    /// The permission written out.
    pub fn to_string(&self) -> (r: String)
        ensures
            r@ == self.spec_str(),
    {
        match self {
            OrganizationPermission::ReadOrganization => str_new("read:org"),
            OrganizationPermission::UpdateOrganization => str_new("update:org"),
            OrganizationPermission::DeleteOrganization => str_new("delete:org"),
            OrganizationPermission::RequestPermissionForOrganization => str_new(
                "request_permission:org",
            ),
            OrganizationPermission::InviteUser => str_new("invite:user"),
            OrganizationPermission::UpdateUser => str_new("update:user"),
            OrganizationPermission::DeleteUser => str_new("delete:user"),
        }
    }
}

/// The names of the membership permissions granted to the creator of an
/// organization.
pub open spec fn creator_permission_strings() -> Seq<Seq<char>> {
    seq![
        "read:org"@,
        "update:org"@,
        "delete:org"@,
        "request_permission:org"@,
        "invite:user"@,
        "update:user"@,
        "delete:user"@,
    ]
}

/// Every membership permission the creator of an organization receives.
pub fn organization_creator_permissions() -> (r: Vec<String>)
    ensures
        r.deep_view() == creator_permission_strings(),
{
    let mut r: Vec<String> = Vec::new();
    r.push(OrganizationPermission::ReadOrganization.to_string());
    r.push(OrganizationPermission::UpdateOrganization.to_string());
    r.push(OrganizationPermission::DeleteOrganization.to_string());
    r.push(OrganizationPermission::RequestPermissionForOrganization.to_string());
    r.push(OrganizationPermission::InviteUser.to_string());
    r.push(OrganizationPermission::UpdateUser.to_string());
    r.push(OrganizationPermission::DeleteUser.to_string());
    proof {
        assert(r.deep_view() =~~= creator_permission_strings());
    }
    r
}

} // verus!
