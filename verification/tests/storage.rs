use organization_api::check_object_id;
use organization_api::ErrorKind;
use organization_api::InsertOutcome;
use organization_api::Invitation;
use organization_api::Organization;
use organization_api::OrganizationCreateFlow;
use organization_api::OrganizationRootFlow;
use organization_api::User;
use organization_api::UserCreateFlow;
use organization_api::UserOrganization;

fn organization_fields() -> (String, String, String, String) {
    (
        "test".to_string(),
        "RO".to_string(),
        "ADDRESS".to_string(),
        "+40753313640".to_string(),
    )
}

#[test]
fn organization_insert_yields_organization_with_generated_id() {
    let (name, country, address, telephone) = organization_fields();
    let flow = OrganizationCreateFlow::start(name, country, address, telephone)
        .on_inserted(InsertOutcome::Inserted {
            id: "0123456789abcdef01234567".to_string(),
        });

    let organization = flow.into_outcome().unwrap();
    assert_eq!("0123456789abcdef01234567", organization.id);
    assert_eq!("test", organization.name);
    assert_eq!("RO", organization.country);
    assert_eq!("ADDRESS", organization.address);
    assert_eq!("+40753313640", organization.telephone);
    assert!(organization.permissions.is_empty());
}

#[test]
fn organization_insert_without_id_is_reverted() {
    let (name, country, address, telephone) = organization_fields();
    let flow = OrganizationCreateFlow::start(name, country, address, telephone)
        .on_inserted(InsertOutcome::MissingId)
        .on_reverted(Ok(()));

    let error = flow.into_outcome().unwrap_err();
    assert_eq!(ErrorKind::ProcessReversion, error.kind);
    assert_eq!("failed to get organization id, process reverted", error.message);
}

#[test]
fn organization_failed_reversion_is_internal() {
    let (name, country, address, telephone) = organization_fields();
    let flow = OrganizationCreateFlow::start(name, country, address, telephone)
        .on_inserted(InsertOutcome::MissingId)
        .on_reverted(Err("connection lost".to_string()));

    let error = flow.into_outcome().unwrap_err();
    assert_eq!(ErrorKind::InternalFailure, error.kind);
    assert_eq!(
        "failed to revert create organization: connection lost",
        error.message
    );
}

#[test]
fn organization_insert_failure_is_internal() {
    let (name, country, address, telephone) = organization_fields();
    let flow = OrganizationCreateFlow::start(name, country, address, telephone)
        .on_inserted(InsertOutcome::Failed {
            message: "duplicate key".to_string(),
        });

    let error = flow.into_outcome().unwrap_err();
    assert_eq!(ErrorKind::InternalFailure, error.kind);
    assert_eq!("failed to insert organization: duplicate key", error.message);
}

fn membership() -> UserOrganization {
    UserOrganization {
        organization_id: "org|123910921".to_string(),
        permissions: vec!["read:org".to_string()],
    }
}

#[test]
fn user_insert_yields_user_with_single_membership() {
    let flow = UserCreateFlow::start("test|1234851928".to_string(), membership())
        .on_inserted(InsertOutcome::Inserted {
            id: "0123456789abcdef01234567".to_string(),
        });

    let user = flow.into_outcome().unwrap();
    assert_eq!("test|1234851928", user.id);
    assert_eq!(1, user.organizations.len());
    assert_eq!("org|123910921", user.organizations[0].organization_id);
    assert_eq!(vec!["read:org"], user.organizations[0].permissions);
}

#[test]
fn user_insert_failure_is_invalid_argument() {
    let flow = UserCreateFlow::start("test|1234851928".to_string(), membership())
        .on_inserted(InsertOutcome::Failed {
            message: "duplicate key".to_string(),
        });

    let error = flow.into_outcome().unwrap_err();
    assert_eq!(ErrorKind::InvalidArgument, error.kind);
    assert_eq!("failed to create user: duplicate key", error.message);
}

#[test]
fn user_insert_without_id_is_reverted() {
    let flow = UserCreateFlow::start("test|1234851928".to_string(), membership())
        .on_inserted(InsertOutcome::MissingId)
        .on_reverted(Ok(()));

    let error = flow.into_outcome().unwrap_err();
    assert_eq!(ErrorKind::ProcessReversion, error.kind);
    assert_eq!("failed to get user id, process reverted", error.message);
}

#[test]
fn organization_root_read_needs_a_well_formed_id() {
    let flow = OrganizationRootFlow::start("not-an-id".to_string());
    let error = flow.into_outcome().unwrap_err();
    assert_eq!(ErrorKind::InvalidArgument, error.kind);
    assert_eq!("failed to parse organization id as ObjectId", error.message);
}

#[test]
fn organization_root_read_assembles_the_aggregate() {
    let organization = Organization {
        id: "0123456789abcdef01234567".to_string(),
        name: "test".to_string(),
        country: "RO".to_string(),
        address: "ADDRESS".to_string(),
        telephone: "+40753313640".to_string(),
        permissions: vec![],
    };
    let user = User {
        id: "USER_ID".to_string(),
        organizations: vec![membership()],
    };
    let invitation = Invitation {
        code: "CODE".to_string(),
        organization_id: "0123456789abcdef01234567".to_string(),
        permissions: vec![],
        created_at: 1_000,
        expires_after: 60,
    };

    let flow = OrganizationRootFlow::start("0123456789abcdef01234567".to_string())
        .on_organization(Ok(Some(organization)))
        .on_users(Ok(vec![user]))
        .on_invitations(Ok(vec![invitation]));

    let root = flow.into_outcome().unwrap();
    assert_eq!("0123456789abcdef01234567", root.organization.id);
    assert_eq!(1, root.users.len());
    assert_eq!("USER_ID", root.users[0].id);
    assert_eq!(1, root.invitations.len());
    assert_eq!("CODE", root.invitations[0].code);
}

#[test]
fn organization_root_read_aborts_on_missing_organization() {
    let flow = OrganizationRootFlow::start("0123456789abcdef01234567".to_string())
        .on_organization(Ok(None));

    let error = flow.into_outcome().unwrap_err();
    assert_eq!(ErrorKind::InvalidArgument, error.kind);
    assert_eq!(
        "organization with id '0123456789abcdef01234567' not found",
        error.message
    );
}

#[test]
fn organization_root_read_aborts_on_sub_read_failure() {
    let organization = Organization {
        id: "0123456789abcdef01234567".to_string(),
        name: "test".to_string(),
        country: "RO".to_string(),
        address: "ADDRESS".to_string(),
        telephone: "+40753313640".to_string(),
        permissions: vec![],
    };

    let flow = OrganizationRootFlow::start("0123456789abcdef01234567".to_string())
        .on_organization(Ok(Some(organization)))
        .on_users(Err("cursor failed".to_string()));

    let error = flow.into_outcome().unwrap_err();
    assert_eq!(ErrorKind::InternalFailure, error.kind);
    assert_eq!("failed to read users from database: cursor failed", error.message);
}

#[test]
fn find_and_delete_replies_classify_driver_failures() {
    let found = organization_api::storage_flows::organization_find_reply(Ok(None));
    assert!(found.unwrap().is_none());

    let error = organization_api::storage_flows::organization_find_reply(Err(
        "no connection".to_string(),
    ))
    .unwrap_err();
    assert_eq!(ErrorKind::InternalFailure, error.kind);
    assert_eq!("failed to find organization: no connection", error.message);

    let error = organization_api::storage_flows::invitation_find_reply(Err(
        "no connection".to_string(),
    ))
    .unwrap_err();
    assert_eq!(ErrorKind::StorageFailure, error.kind);
    assert_eq!("failed to find invitation by code: no connection", error.message);

    let error = organization_api::storage_flows::invitation_delete_reply(Err(
        "no connection".to_string(),
    ))
    .unwrap_err();
    assert_eq!(ErrorKind::StorageFailure, error.kind);

    let error = organization_api::storage_flows::user_find_reply(Err("no connection".to_string()))
        .unwrap_err();
    assert_eq!(ErrorKind::StorageFailure, error.kind);
    assert_eq!("failed to find user by id: no connection", error.message);

    let error = organization_api::storage_flows::organization_delete_reply(Err(
        "no connection".to_string(),
    ))
    .unwrap_err();
    assert_eq!(ErrorKind::InternalFailure, error.kind);

    assert!(check_object_id("0123456789abcdef01234567").is_ok());
    let error = check_object_id("nope").unwrap_err();
    assert_eq!(ErrorKind::InvalidArgument, error.kind);
}
