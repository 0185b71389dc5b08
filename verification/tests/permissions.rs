use organization_api::read_user;
use organization_api::ErrorKind;
use organization_api::OrganizationPermission;
use organization_api::Permission;
use organization_api::StorageReply;
use organization_api::User;

#[test]
fn api_permissions_round_trip_through_text() {
    let all = [
        Permission::CreateOrganization,
        Permission::JoinOrganization,
        Permission::ReadOrganization,
        Permission::UpdateOrganization,
        Permission::DeleteOrganization,
        Permission::RequestPermissionForOrganization,
        Permission::InviteUser,
        Permission::UpdateUser,
        Permission::DeleteUser,
    ];
    for permission in all {
        let text = permission.to_string();
        assert_eq!(permission, Permission::from_str(text.as_str()).unwrap());
    }
    assert_eq!("create:organization", Permission::CreateOrganization.to_string());
    assert_eq!(
        "unknown permission 'fly:moon'",
        Permission::from_str("fly:moon").unwrap_err()
    );
}

#[test]
fn organization_permissions_round_trip_through_text() {
    let all = [
        OrganizationPermission::ReadOrganization,
        OrganizationPermission::UpdateOrganization,
        OrganizationPermission::DeleteOrganization,
        OrganizationPermission::RequestPermissionForOrganization,
        OrganizationPermission::InviteUser,
        OrganizationPermission::UpdateUser,
        OrganizationPermission::DeleteUser,
    ];
    for permission in all {
        let text = permission.to_string();
        assert_eq!(
            permission,
            OrganizationPermission::from_str(text.as_str()).unwrap()
        );
    }
    assert_eq!("read:org", OrganizationPermission::ReadOrganization.to_string());
    assert_eq!(
        "unknown permission 'fly:moon'",
        OrganizationPermission::from_str("fly:moon").unwrap_err()
    );
}

#[test]
fn creator_permission_sets_are_complete() {
    assert_eq!(
        vec![
            "read:organization",
            "update:organization",
            "delete:organization",
            "request_permission:organization",
            "invite:user",
            "update:user",
            "delete:user",
        ],
        organization_api::permission::organization_creator_permissions()
    );
    assert_eq!(
        vec![
            "read:org",
            "update:org",
            "delete:org",
            "request_permission:org",
            "invite:user",
            "update:user",
            "delete:user",
        ],
        organization_api::organization_permission::organization_creator_permissions()
    );
}

#[test]
fn unknown_user_reads_as_default_self_service_user() {
    let user = read_user("nobody|42".to_string(), StorageReply::Replied(Ok(None))).unwrap();

    assert_eq!("nobody|42", user.id);
    assert_eq!(1, user.organizations.len());
    assert_eq!("", user.organizations[0].organization_id);
    assert_eq!(
        vec!["create:organization", "join:organization"],
        user.organizations[0].permissions
    );
}

#[test]
fn stored_user_reads_back_verbatim() {
    let stored = User {
        id: "USER_ID".to_string(),
        organizations: vec![organization_api::UserOrganization {
            organization_id: "0123456789abcdef01234567".to_string(),
            permissions: vec!["read:org".to_string()],
        }],
    };

    let user = read_user("USER_ID".to_string(), StorageReply::Replied(Ok(Some(stored)))).unwrap();
    assert_eq!(1, user.organizations.len());
    assert_eq!("0123456789abcdef01234567", user.organizations[0].organization_id);
}

#[test]
fn user_read_storage_failure_is_internal() {
    let error = read_user(
        "USER_ID".to_string(),
        StorageReply::Replied(Err(organization_api::Error::new(
            ErrorKind::StorageFailure,
            "cursor failed".to_string(),
        ))),
    )
    .unwrap_err();

    assert_eq!(ErrorKind::InternalFailure, error.kind);
    assert_eq!("failed to receive storage result", error.message);
}

#[test]
fn organization_root_read_relays_the_storage_verdict() {
    let root = organization_api::OrganizationRoot {
        organization: organization_api::Organization {
            id: "0123456789abcdef01234567".to_string(),
            name: "test".to_string(),
            country: "RO".to_string(),
            address: "ADDRESS".to_string(),
            telephone: "+40753313640".to_string(),
            permissions: vec![],
        },
        users: vec![],
        invitations: vec![],
    };

    let relayed = organization_api::read_organization_root(StorageReply::Replied(Ok(root)))
        .unwrap();
    assert_eq!("test", relayed.organization.name);

    let error = organization_api::read_organization_root(StorageReply::ReceiveFailed).unwrap_err();
    assert_eq!(ErrorKind::InternalFailure, error.kind);
}
