use vstd::prelude::*;

use crate::elements::UserOrganization;
use crate::error::Error;
use crate::error::ErrorV;

verus! {

/// A business-level operation on an organization.
pub enum OrganizationLogicAction {
    Create { user_id: String, name: String, country: String, address: String, telephone: String },
    Join { user_id: String, invitation_code: String },
}

/// A business-level read of an organization aggregate.
pub enum OrganizationRootLogicAction {
    Read { organization_id: String },
}

/// A business-level read of a user.
pub enum UserLogicAction {
    Read { user_id: String },
}

/// A unit of work submitted to the logic layer.
pub enum LogicRequest {
    Organization(OrganizationLogicAction),
    OrganizationRoot(OrganizationRootLogicAction),
    User(UserLogicAction),
}

/// A persistence-level operation on the organization collection.
pub enum OrganizationStorageAction {
    Create { name: String, country: String, address: String, telephone: String },
    Delete { id: String },
    FindById { id: String },
    FindByName { name: String },
    FindByTelephone { telephone: String },
}

/// A persistence-level operation on the user collection.
pub enum UserStorageAction {
    Create { id: String, organization: UserOrganization },
    Delete { id: String },
    FindUserById { user_id: String },
}

/// A persistence-level operation on the invitation collection.
pub enum InvitationStorageAction {
    Delete { code: String },
    FindByCode { code: String },
}

/// A persistence-level read of an organization aggregate.
pub enum OrganizationRootStorageAction {
    Read { organization_id: String },
}

/// A unit of work submitted to the storage layer.
pub enum StorageRequest {
    OrganizationRequest(OrganizationStorageAction),
    UserRequest(UserStorageAction),
    InvitationRequest(InvitationStorageAction),
    OrganizationRootRequest(OrganizationRootStorageAction),
}

/// What came back from a storage round trip: the request could not be
/// submitted, the reply channel closed without a reply, or the storage layer
/// replied.
pub enum StorageReply<T> {
    SendFailed,
    ReceiveFailed,
    Replied(Result<T, Error>),
}

/// Abstract value of a [`StorageReply`].
pub enum ReplyV<T> {
    SendFailed,
    ReceiveFailed,
    Replied(Result<T, ErrorV>),
}

impl<T: DeepView> View for StorageReply<T> {
    type V = ReplyV<<T as DeepView>::V>;

    open spec fn view(&self) -> ReplyV<<T as DeepView>::V> {
        match self {
            StorageReply::SendFailed => ReplyV::SendFailed,
            StorageReply::ReceiveFailed => ReplyV::ReceiveFailed,
            StorageReply::Replied(Ok(value)) => ReplyV::Replied(Ok(value.deep_view())),
            StorageReply::Replied(Err(error)) => ReplyV::Replied(Err(error@)),
        }
    }
}

} // verus!
