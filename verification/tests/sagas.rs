use organization_api::CreateOrganizationSaga;
use organization_api::CreateState;
use organization_api::Error;
use organization_api::ErrorKind;
use organization_api::Invitation;
use organization_api::InvitationStorageAction;
use organization_api::JoinOrganizationSaga;
use organization_api::JoinState;
use organization_api::Organization;
use organization_api::OrganizationStorageAction;
use organization_api::StorageReply;
use organization_api::StorageRequest;
use organization_api::User;
use organization_api::UserStorageAction;

fn setup() -> (String, String, String, String, String) {
    (
        "USER_ID".to_string(),
        "NAME".to_string(),
        "RO".to_string(),
        "ADDRESS".to_string(),
        "+40753313640".to_string(),
    )
}

fn stored_organization() -> Organization {
    Organization {
        id: "0123456789abcdef01234567".to_string(),
        name: "NAME".to_string(),
        country: "RO".to_string(),
        address: "ADDRESS".to_string(),
        telephone: "+40753313640".to_string(),
        permissions: vec![],
    }
}

#[test]
fn detect_invalid_country() {
    const INVALID_COUNTRY: &str = "XX";

    let (user_id, name, _, address, phone) = setup();

    let saga = CreateOrganizationSaga::start(
        user_id,
        name,
        INVALID_COUNTRY.to_string(),
        address,
        phone,
    );

    assert!(saga.is_finished());
    let result = saga.into_outcome();
    assert!(result.is_err());
    assert_eq!(ErrorKind::InvalidCountry, result.unwrap_err().kind);
}

#[test]
fn detect_invalid_phone() {
    const INVALID_PHONE: &str = "INVALID_PHONE";

    let (user_id, name, country, address, _) = setup();

    let saga = CreateOrganizationSaga::start(
        user_id,
        name,
        country,
        address,
        INVALID_PHONE.to_string(),
    );

    assert!(saga.is_finished());
    let result = saga.into_outcome();
    assert!(result.is_err());
    assert_eq!(ErrorKind::InvalidTelephone, result.unwrap_err().kind);
}

#[test]
fn create_walks_every_check_and_succeeds() {
    let (user_id, name, country, address, phone) = setup();

    let saga = CreateOrganizationSaga::start(user_id, name, country, address, phone);
    assert!(!saga.is_finished());
    assert!(matches!(
        saga.pending_request(),
        Some(StorageRequest::UserRequest(UserStorageAction::FindUserById { .. }))
    ));

    let saga = saga.on_user_checked(StorageReply::Replied(Ok(None)));
    match saga.pending_request() {
        Some(StorageRequest::OrganizationRequest(OrganizationStorageAction::FindByName {
            name,
        })) => assert_eq!("NAME", name),
        _ => panic!("expected a find-by-name request"),
    }

    let saga = saga.on_name_checked(StorageReply::Replied(Ok(None)));
    match saga.pending_request() {
        Some(StorageRequest::OrganizationRequest(
            OrganizationStorageAction::FindByTelephone { telephone },
        )) => assert_eq!("+40753313640", telephone),
        _ => panic!("expected a find-by-telephone request"),
    }

    let saga = saga.on_telephone_checked(StorageReply::Replied(Ok(None)));
    match saga.pending_request() {
        Some(StorageRequest::OrganizationRequest(OrganizationStorageAction::Create {
            name,
            country,
            address,
            telephone,
        })) => {
            assert_eq!("NAME", name);
            assert_eq!("RO", country);
            assert_eq!("ADDRESS", address);
            assert_eq!("+40753313640", telephone);
        }
        _ => panic!("expected an organization create request"),
    }

    let saga = saga.on_organization_created(StorageReply::Replied(Ok(stored_organization())));
    match saga.pending_request() {
        Some(StorageRequest::UserRequest(UserStorageAction::Create { id, organization })) => {
            assert_eq!("USER_ID", id);
            assert_eq!("0123456789abcdef01234567", organization.organization_id);
            assert_eq!(
                vec![
                    "read:org",
                    "update:org",
                    "delete:org",
                    "request_permission:org",
                    "invite:user",
                    "update:user",
                    "delete:user",
                ],
                organization.permissions
            );
        }
        _ => panic!("expected a user create request"),
    }

    let membership = User {
        id: "USER_ID".to_string(),
        organizations: vec![],
    };
    let saga = saga.on_membership_attached(StorageReply::Replied(Ok(membership)));
    assert!(saga.is_finished());
    let organization = saga.into_outcome().unwrap();
    assert_eq!("0123456789abcdef01234567", organization.id);
    assert_eq!("NAME", organization.name);
}

#[test]
fn create_rejects_user_with_membership() {
    let (user_id, name, country, address, phone) = setup();

    let member = User {
        id: "USER_ID".to_string(),
        organizations: vec![organization_api::UserOrganization {
            organization_id: "0123456789abcdef01234567".to_string(),
            permissions: vec!["read:org".to_string()],
        }],
    };

    let saga = CreateOrganizationSaga::start(user_id, name, country, address, phone)
        .on_user_checked(StorageReply::Replied(Ok(Some(member))));

    assert!(saga.is_finished());
    assert_eq!(
        ErrorKind::UserCannotCreateOrganization,
        saga.into_outcome().unwrap_err().kind
    );
}

#[test]
fn second_create_with_same_name_is_rejected() {
    let (user_id, name, country, address, phone) = setup();

    let saga = CreateOrganizationSaga::start(user_id, name, country, address, phone)
        .on_user_checked(StorageReply::Replied(Ok(None)))
        .on_name_checked(StorageReply::Replied(Ok(Some(stored_organization()))));

    assert!(saga.is_finished());
    let error = saga.into_outcome().unwrap_err();
    assert_eq!(ErrorKind::NameAlreadyTaken, error.kind);
    assert_eq!("name is already being used", error.message);
}

#[test]
fn create_rejects_taken_telephone() {
    let (user_id, name, country, address, phone) = setup();

    let saga = CreateOrganizationSaga::start(user_id, name, country, address, phone)
        .on_user_checked(StorageReply::Replied(Ok(None)))
        .on_name_checked(StorageReply::Replied(Ok(None)))
        .on_telephone_checked(StorageReply::Replied(Ok(Some(stored_organization()))));

    assert!(saga.is_finished());
    assert_eq!(
        ErrorKind::TelephoneAlreadyInUse,
        saga.into_outcome().unwrap_err().kind
    );
}

#[test]
fn membership_failure_compensates_and_returns_first_error() {
    let (user_id, name, country, address, phone) = setup();

    let saga = CreateOrganizationSaga::start(user_id, name, country, address, phone)
        .on_user_checked(StorageReply::Replied(Ok(None)))
        .on_name_checked(StorageReply::Replied(Ok(None)))
        .on_telephone_checked(StorageReply::Replied(Ok(None)))
        .on_organization_created(StorageReply::Replied(Ok(stored_organization())));

    let membership_error = Error::new(
        ErrorKind::StorageFailure,
        "user collection rejected the document".to_string(),
    );
    let saga = saga.on_membership_attached(StorageReply::Replied(Err(membership_error)));

    assert!(!saga.is_finished());
    assert!(matches!(saga.state, CreateState::Compensate { .. }));
    match saga.pending_request() {
        Some(StorageRequest::OrganizationRequest(OrganizationStorageAction::Delete { id })) => {
            assert_eq!("0123456789abcdef01234567", id)
        }
        _ => panic!("expected the compensating delete"),
    }

    // Even a failed compensation must not mask the membership step's error.
    let compensation_error = Error::new(ErrorKind::InternalFailure, "delete failed".to_string());
    let saga = saga.on_compensated(StorageReply::Replied(Err(compensation_error)));

    assert!(saga.is_finished());
    let error = saga.into_outcome().unwrap_err();
    assert_eq!(ErrorKind::StorageFailure, error.kind);
    assert_eq!("user collection rejected the document", error.message);
}

fn stored_invitation(created_at: u64) -> Invitation {
    Invitation {
        code: "CODE".to_string(),
        organization_id: "0123456789abcdef01234567".to_string(),
        permissions: vec!["read:org".to_string(), "invite:user".to_string()],
        created_at,
        expires_after: 60,
    }
}

#[test]
fn join_consumes_invitation_and_returns_organization() {
    let saga = JoinOrganizationSaga::start("USER_ID".to_string(), "CODE".to_string());
    assert!(matches!(
        saga.pending_request(),
        Some(StorageRequest::UserRequest(UserStorageAction::FindUserById { .. }))
    ));

    let saga = saga.on_user_checked(StorageReply::Replied(Ok(None)));
    match saga.pending_request() {
        Some(StorageRequest::InvitationRequest(InvitationStorageAction::FindByCode { code })) => {
            assert_eq!("CODE", code)
        }
        _ => panic!("expected a find-by-code request"),
    }

    let saga = saga.on_invitation_fetched(StorageReply::Replied(Ok(Some(stored_invitation(1_000)))), 1_030);
    match saga.pending_request() {
        Some(StorageRequest::OrganizationRequest(OrganizationStorageAction::FindById { id })) => {
            assert_eq!("0123456789abcdef01234567", id)
        }
        _ => panic!("expected a find-by-id request"),
    }

    let saga = saga.on_organization_fetched(StorageReply::Replied(Ok(Some(stored_organization()))));
    match saga.pending_request() {
        Some(StorageRequest::UserRequest(UserStorageAction::Create { id, organization })) => {
            assert_eq!("USER_ID", id);
            assert_eq!("0123456789abcdef01234567", organization.organization_id);
            assert_eq!(vec!["read:org", "invite:user"], organization.permissions);
        }
        _ => panic!("expected a user create request"),
    }

    let membership = User {
        id: "USER_ID".to_string(),
        organizations: vec![],
    };
    let saga = saga.on_membership_attached(StorageReply::Replied(Ok(membership)));
    match saga.pending_request() {
        Some(StorageRequest::InvitationRequest(InvitationStorageAction::Delete { code })) => {
            assert_eq!("CODE", code)
        }
        _ => panic!("expected the invitation delete"),
    }

    // A failed best-effort delete does not fail the join.
    let saga = saga.on_invitation_deleted(StorageReply::Replied(Err(Error::new(
        ErrorKind::StorageFailure,
        "delete failed".to_string(),
    ))));
    assert!(saga.is_finished());
    assert_eq!("0123456789abcdef01234567", saga.into_outcome().unwrap().id);
}

#[test]
fn join_with_expired_invitation_leaves_it_in_place() {
    let saga = JoinOrganizationSaga::start("USER_ID".to_string(), "CODE".to_string())
        .on_user_checked(StorageReply::Replied(Ok(None)))
        .on_invitation_fetched(StorageReply::Replied(Ok(Some(stored_invitation(1_000)))), 1_061);

    assert!(saga.is_finished());
    assert!(matches!(saga.state, JoinState::Finished { .. }));
    assert!(saga.pending_request().is_none());
    let error = saga.into_outcome().unwrap_err();
    assert_eq!(ErrorKind::InvitationHasExpired, error.kind);
    assert_eq!("invitation code has expired", error.message);
}

#[test]
fn join_with_unknown_invitation_fails() {
    let saga = JoinOrganizationSaga::start("USER_ID".to_string(), "CODE".to_string())
        .on_user_checked(StorageReply::Replied(Ok(None)))
        .on_invitation_fetched(StorageReply::Replied(Ok(None)), 1_000);

    assert!(saga.is_finished());
    assert_eq!(
        ErrorKind::InvitationNotFound,
        saga.into_outcome().unwrap_err().kind
    );
}

#[test]
fn join_with_vanished_organization_fails() {
    let saga = JoinOrganizationSaga::start("USER_ID".to_string(), "CODE".to_string())
        .on_user_checked(StorageReply::Replied(Ok(None)))
        .on_invitation_fetched(StorageReply::Replied(Ok(Some(stored_invitation(1_000)))), 1_030)
        .on_organization_fetched(StorageReply::Replied(Ok(None)));

    assert!(saga.is_finished());
    assert_eq!(
        ErrorKind::OrganizationNotFound,
        saga.into_outcome().unwrap_err().kind
    );
}

#[test]
fn join_rejects_user_with_membership() {
    let member = User {
        id: "USER_ID".to_string(),
        organizations: vec![organization_api::UserOrganization {
            organization_id: "0123456789abcdef01234567".to_string(),
            permissions: vec![],
        }],
    };

    let saga = JoinOrganizationSaga::start("USER_ID".to_string(), "CODE".to_string())
        .on_user_checked(StorageReply::Replied(Ok(Some(member))));

    assert!(saga.is_finished());
    assert_eq!(
        ErrorKind::UserCannotJoinAnyOrganization,
        saga.into_outcome().unwrap_err().kind
    );
}

#[test]
fn channel_breakdown_is_an_internal_failure() {
    let (user_id, name, country, address, phone) = setup();

    let saga = CreateOrganizationSaga::start(user_id, name, country, address, phone)
        .on_user_checked(StorageReply::SendFailed);

    assert!(saga.is_finished());
    let error = saga.into_outcome().unwrap_err();
    assert_eq!(ErrorKind::InternalFailure, error.kind);
    assert_eq!("failed to send storage request", error.message);
}
