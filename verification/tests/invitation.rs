use organization_api::unix_now_seconds;
use organization_api::Invitation;

#[test]
fn expires_correctly() {
    const EXPIRE_AFTER: u64 = 3;
    let created_at = unix_now_seconds();

    let invitation = Invitation {
        code: "test".to_string(),
        organization_id: "test".to_string(),
        permissions: vec![],
        created_at,
        expires_after: EXPIRE_AFTER,
    };

    assert_eq!(false, invitation.expired());
    // Wait one second more in order to avoid possible time drifts.
    let resume_at = created_at + EXPIRE_AFTER + 2;
    while unix_now_seconds() < resume_at {}
    assert_eq!(true, invitation.expired());
}

#[test]
fn expiry_boundary_is_strict() {
    let invitation = Invitation {
        code: "boundary".to_string(),
        organization_id: "org".to_string(),
        permissions: vec![],
        created_at: 100,
        expires_after: 50,
    };

    assert!(!invitation.expired_at(100));
    assert!(!invitation.expired_at(149));
    assert!(!invitation.expired_at(150));
    assert!(invitation.expired_at(151));
    assert_eq!(100, invitation.created_at());
}
