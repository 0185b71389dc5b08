use vstd::prelude::*;

use crate::elements::Invitation;
use crate::elements::InvitationV;
use crate::elements::Organization;
use crate::elements::OrganizationV;
use crate::elements::User;
use crate::elements::UserOrganization;
use crate::elements::UserV;
use crate::error::Error;
use crate::error::ErrorKind;
use crate::error::ErrorV;
use crate::requests::InvitationStorageAction;
use crate::requests::OrganizationStorageAction;
use crate::requests::ReplyV;
use crate::requests::StorageReply;
use crate::requests::StorageRequest;
use crate::requests::UserStorageAction;
use crate::text::clone_strings;
use crate::text::str_new;
use crate::validation::get_code_if_valid;
use crate::validation::get_organization_if_exists;
use crate::validation::has_user_no_organization;
use crate::validation::result_view;
use crate::validation::spec_user_unattached;
use crate::validation::transport_error;

verus! {

/// Abstract state of a join-organization saga.
pub enum JoinStateV {
    /// Awaiting the reply to `FindUserById`: may the user join at all?
    CheckUser,
    /// Awaiting the reply to `FindByCode`: does the invitation exist, and is
    /// it still alive?
    FetchInvitation,
    /// Awaiting the reply to `FindById`: does the invited-to organization
    /// exist?
    FetchOrganization { invitation: InvitationV },
    /// Awaiting the reply to the membership insert.
    AttachMembership { invitation: InvitationV, organization: OrganizationV },
    /// The membership exists; awaiting the best-effort delete of the
    /// consumed invitation.
    DeleteInvitation { invitation: InvitationV, organization: OrganizationV },
    /// The saga is over; `outcome` is the one reply owed to the caller.
    Finished { outcome: Result<OrganizationV, ErrorV> },
}

/// Abstract value of a [`JoinOrganizationSaga`].
pub struct JoinSagaV {
    pub user_id: Seq<char>,
    pub invitation_code: Seq<char>,
    pub state: JoinStateV,
}

impl JoinSagaV {
    /// The same saga, over with the given error.
    pub open spec fn finish_err(self, kind: ErrorKind, message: Seq<char>) -> JoinSagaV {
        JoinSagaV {
            state: JoinStateV::Finished { outcome: Err(ErrorV { kind, message }) },
            ..self
        }
    }

    /// The same saga, over with the error a failed storage round trip left.
    pub open spec fn finish_transport_err(self, reply_lost: bool) -> JoinSagaV {
        if reply_lost {
            self.finish_err(
                ErrorKind::InternalFailure,
                "failed to receive response for a storage request"@,
            )
        } else {
            self.finish_err(ErrorKind::InternalFailure, "failed to send storage request"@)
        }
    }

    /// Where the saga begins: no rule can be judged before the first storage
    /// round trip.
    pub open spec fn spec_start(user_id: Seq<char>, invitation_code: Seq<char>) -> JoinSagaV {
        JoinSagaV { user_id, invitation_code, state: JoinStateV::CheckUser }
    }

    /// How the `FindUserById` reply moves the saga on: a user already holding
    /// a membership may not join an organization.
    pub open spec fn spec_on_user_checked(self, reply: ReplyV<Option<UserV>>) -> JoinSagaV {
        match reply {
            ReplyV::SendFailed => self.finish_transport_err(false),
            ReplyV::ReceiveFailed => self.finish_transport_err(true),
            ReplyV::Replied(Err(e)) => self.finish_err(e.kind, e.message),
            ReplyV::Replied(Ok(found)) => if spec_user_unattached(found) {
                JoinSagaV { state: JoinStateV::FetchInvitation, ..self }
            } else {
                self.finish_err(
                    ErrorKind::UserCannotJoinAnyOrganization,
                    "user cannot join any organization"@,
                )
            },
        }
    }

    /// How the `FindByCode` reply moves the saga on, judged at time `now`:
    /// a missing code ends the saga with `InvitationNotFound`, an expired one
    /// with `InvitationHasExpired` — and the expired invitation is left in
    /// place, since only a consumed invitation is deleted.
    pub open spec fn spec_on_invitation_fetched(
        self,
        reply: ReplyV<Option<InvitationV>>,
        now: u64,
    ) -> JoinSagaV {
        match reply {
            ReplyV::SendFailed => self.finish_transport_err(false),
            ReplyV::ReceiveFailed => self.finish_transport_err(true),
            ReplyV::Replied(Err(e)) => self.finish_err(e.kind, e.message),
            ReplyV::Replied(Ok(None)) => self.finish_err(
                ErrorKind::InvitationNotFound,
                "invitation code not found"@,
            ),
            ReplyV::Replied(Ok(Some(invitation))) => if invitation.spec_expired_at(now) {
                self.finish_err(ErrorKind::InvitationHasExpired, "invitation code has expired"@)
            } else {
                JoinSagaV { state: JoinStateV::FetchOrganization { invitation }, ..self }
            },
        }
    }

    /// How the `FindById` reply moves the saga on: the organization the
    /// invitation points to must still exist.
    pub open spec fn spec_on_organization_fetched(
        self,
        reply: ReplyV<Option<OrganizationV>>,
    ) -> JoinSagaV
        recommends
            self.state is FetchOrganization,
    {
        let invitation = self.state->FetchOrganization_invitation;
        match reply {
            ReplyV::SendFailed => self.finish_transport_err(false),
            ReplyV::ReceiveFailed => self.finish_transport_err(true),
            ReplyV::Replied(Err(e)) => self.finish_err(e.kind, e.message),
            ReplyV::Replied(Ok(None)) => self.finish_err(
                ErrorKind::OrganizationNotFound,
                "organization not found"@,
            ),
            ReplyV::Replied(Ok(Some(organization))) => JoinSagaV {
                state: JoinStateV::AttachMembership { invitation, organization },
                ..self
            },
        }
    }

    /// How the membership-insert reply moves the saga on: nothing was
    /// created before this step, so a failure ends the saga with no
    /// compensating action; on success the consumed invitation is deleted,
    /// best effort.
    pub open spec fn spec_on_membership_attached(self, reply: ReplyV<UserV>) -> JoinSagaV
        recommends
            self.state is AttachMembership,
    {
        let invitation = self.state->AttachMembership_invitation;
        let organization = self.state->AttachMembership_organization;
        match reply {
            ReplyV::SendFailed => self.finish_transport_err(false),
            ReplyV::ReceiveFailed => self.finish_transport_err(true),
            ReplyV::Replied(Err(e)) => self.finish_err(e.kind, e.message),
            ReplyV::Replied(Ok(_)) => JoinSagaV {
                state: JoinStateV::DeleteInvitation { invitation, organization },
                ..self
            },
        }
    }

    /// How the invitation-delete reply moves the saga on: whatever it says,
    /// the join has succeeded — a failed delete is the caller's to log, and
    /// expiry cleans the invitation up eventually.
    pub open spec fn spec_on_invitation_deleted(self, reply: ReplyV<()>) -> JoinSagaV
        recommends
            self.state is DeleteInvitation,
    {
        JoinSagaV {
            state: JoinStateV::Finished {
                outcome: Ok(self.state->DeleteInvitation_organization),
            },
            ..self
        }
    }
}

/// Exec state of a join-organization saga; see [`JoinStateV`].
pub enum JoinState {
    CheckUser,
    FetchInvitation,
    FetchOrganization { invitation: Invitation },
    AttachMembership { invitation: Invitation, organization: Organization },
    DeleteInvitation { invitation: Invitation, organization: Organization },
    Finished { outcome: Result<Organization, Error> },
}

impl View for JoinState {
    type V = JoinStateV;

    open spec fn view(&self) -> JoinStateV {
        match self {
            JoinState::CheckUser => JoinStateV::CheckUser,
            JoinState::FetchInvitation => JoinStateV::FetchInvitation,
            JoinState::FetchOrganization { invitation } => JoinStateV::FetchOrganization {
                invitation: invitation@,
            },
            JoinState::AttachMembership { invitation, organization } => JoinStateV::AttachMembership {
                invitation: invitation@,
                organization: organization@,
            },
            JoinState::DeleteInvitation { invitation, organization } => JoinStateV::DeleteInvitation {
                invitation: invitation@,
                organization: organization@,
            },
            JoinState::Finished { outcome: Ok(organization) } => JoinStateV::Finished {
                outcome: Ok(organization@),
            },
            JoinState::Finished { outcome: Err(error) } => JoinStateV::Finished {
                outcome: Err(error@),
            },
        }
    }
}

/// The join-organization saga: every business rule of the operation, run one
/// storage reply at a time, as for [`crate::create_saga::CreateOrganizationSaga`].
pub struct JoinOrganizationSaga {
    pub user_id: String,
    pub invitation_code: String,
    pub state: JoinState,
}

impl View for JoinOrganizationSaga {
    type V = JoinSagaV;

    open spec fn view(&self) -> JoinSagaV {
        JoinSagaV {
            user_id: self.user_id@,
            invitation_code: self.invitation_code@,
            state: self.state@,
        }
    }
}

impl JoinOrganizationSaga {
    /// Begin the saga.
    pub fn start(user_id: String, invitation_code: String) -> (r: Self)
        ensures
            r@ == JoinSagaV::spec_start(user_id@, invitation_code@),
    {
        JoinOrganizationSaga { user_id, invitation_code, state: JoinState::CheckUser }
    }

    /// The storage request the saga is waiting on, none once it is finished.
    pub fn pending_request(&self) -> (r: Option<StorageRequest>)
        ensures
            ({
                let s = self@;
                match s.state {
                    JoinStateV::CheckUser => r matches Some(
                        StorageRequest::UserRequest(UserStorageAction::FindUserById { user_id }),
                    ) && user_id@ == s.user_id,
                    JoinStateV::FetchInvitation => r matches Some(
                        StorageRequest::InvitationRequest(
                            InvitationStorageAction::FindByCode { code },
                        ),
                    ) && code@ == s.invitation_code,
                    JoinStateV::FetchOrganization { invitation } => r matches Some(
                        StorageRequest::OrganizationRequest(OrganizationStorageAction::FindById { id }),
                    ) && id@ == invitation.organization_id,
                    JoinStateV::AttachMembership { invitation, organization } => r matches Some(
                        StorageRequest::UserRequest(UserStorageAction::Create { id, organization: membership }),
                    ) && id@ == s.user_id && membership@.organization_id == organization.id
                        && membership@.permissions == invitation.permissions,
                    JoinStateV::DeleteInvitation { invitation, .. } => r matches Some(
                        StorageRequest::InvitationRequest(InvitationStorageAction::Delete { code }),
                    ) && code@ == invitation.code,
                    JoinStateV::Finished { .. } => r is None,
                }
            }),
    {
        match &self.state {
            JoinState::CheckUser => Some(
                StorageRequest::UserRequest(
                    UserStorageAction::FindUserById { user_id: self.user_id.clone() },
                ),
            ),
            JoinState::FetchInvitation => Some(
                StorageRequest::InvitationRequest(
                    InvitationStorageAction::FindByCode { code: self.invitation_code.clone() },
                ),
            ),
            JoinState::FetchOrganization { invitation } => Some(
                StorageRequest::OrganizationRequest(
                    OrganizationStorageAction::FindById { id: invitation.organization_id.clone() },
                ),
            ),
            JoinState::AttachMembership { invitation, organization } => Some(
                StorageRequest::UserRequest(
                    UserStorageAction::Create {
                        id: self.user_id.clone(),
                        organization: UserOrganization {
                            organization_id: organization.id.clone(),
                            permissions: clone_strings(&invitation.permissions),
                        },
                    },
                ),
            ),
            JoinState::DeleteInvitation { invitation, .. } => Some(
                StorageRequest::InvitationRequest(
                    InvitationStorageAction::Delete { code: invitation.code.clone() },
                ),
            ),
            JoinState::Finished { .. } => None,
        }
    }

    /// Feed the saga the reply to `FindUserById`.
    pub fn on_user_checked(self, reply: StorageReply<Option<User>>) -> (r: Self)
        requires
            self@.state is CheckUser,
        ensures
            r@ == self@.spec_on_user_checked(reply@),
    {
        match has_user_no_organization(reply) {
            Err(error) => JoinOrganizationSaga {
                state: JoinState::Finished { outcome: Err(error) },
                ..self
            },
            Ok(true) => JoinOrganizationSaga { state: JoinState::FetchInvitation, ..self },
            Ok(false) => JoinOrganizationSaga {
                state: JoinState::Finished {
                    outcome: Err(
                        Error::new(
                            ErrorKind::UserCannotJoinAnyOrganization,
                            str_new("user cannot join any organization"),
                        ),
                    ),
                },
                ..self
            },
        }
    }

    /// Feed the saga the reply to `FindByCode`, judged at `now` (seconds
    /// since the Unix epoch).
    pub fn on_invitation_fetched(self, reply: StorageReply<Option<Invitation>>, now: u64) -> (r:
        Self)
        requires
            self@.state is FetchInvitation,
        ensures
            r@ == self@.spec_on_invitation_fetched(reply@, now),
    {
        match get_code_if_valid(reply, now) {
            Err(error) => JoinOrganizationSaga {
                state: JoinState::Finished { outcome: Err(error) },
                ..self
            },
            Ok(invitation) => JoinOrganizationSaga {
                state: JoinState::FetchOrganization { invitation },
                ..self
            },
        }
    }

    /// Feed the saga the reply to `FindById` for the invited-to organization.
    pub fn on_organization_fetched(self, reply: StorageReply<Option<Organization>>) -> (r: Self)
        requires
            self@.state is FetchOrganization,
        ensures
            r@ == self@.spec_on_organization_fetched(reply@),
    {
        let JoinOrganizationSaga { user_id, invitation_code, state } = self;
        let invitation = match state {
            JoinState::FetchOrganization { invitation } => invitation,
            _ => unreached(),
        };
        let state = match get_organization_if_exists(reply) {
            Err(error) => JoinState::Finished { outcome: Err(error) },
            Ok(organization) => JoinState::AttachMembership { invitation, organization },
        };
        JoinOrganizationSaga { user_id, invitation_code, state }
    }

    /// Feed the saga the reply to the membership insert.
    pub fn on_membership_attached(self, reply: StorageReply<User>) -> (r: Self)
        requires
            self@.state is AttachMembership,
        ensures
            r@ == self@.spec_on_membership_attached(reply@),
    {
        let JoinOrganizationSaga { user_id, invitation_code, state } = self;
        let (invitation, organization) = match state {
            JoinState::AttachMembership { invitation, organization } => (invitation, organization),
            _ => unreached(),
        };
        let state = match reply {
            StorageReply::SendFailed => JoinState::Finished {
                outcome: Err(transport_error(false)),
            },
            StorageReply::ReceiveFailed => JoinState::Finished {
                outcome: Err(transport_error(true)),
            },
            StorageReply::Replied(Err(error)) => JoinState::Finished { outcome: Err(error) },
            StorageReply::Replied(Ok(_)) => JoinState::DeleteInvitation {
                invitation,
                organization,
            },
        };
        JoinOrganizationSaga { user_id, invitation_code, state }
    }

    /// Feed the saga the reply to the best-effort invitation delete: the
    /// join has succeeded either way.
    pub fn on_invitation_deleted(self, reply: StorageReply<()>) -> (r: Self)
        requires
            self@.state is DeleteInvitation,
        ensures
            r@ == self@.spec_on_invitation_deleted(reply@),
    {
        let JoinOrganizationSaga { user_id, invitation_code, state } = self;
        let organization = match state {
            JoinState::DeleteInvitation { invitation: _, organization } => organization,
            _ => unreached(),
        };
        JoinOrganizationSaga {
            user_id,
            invitation_code,
            state: JoinState::Finished { outcome: Ok(organization) },
        }
    }

    /// Whether the saga is over.
    pub fn is_finished(&self) -> (r: bool)
        ensures
            r == (self@.state is Finished),
    {
        match &self.state {
            JoinState::Finished { .. } => true,
            _ => false,
        }
    }

    /// The one reply owed to the caller, once the saga is over.
    pub fn into_outcome(self) -> (r: Result<Organization, Error>)
        requires
            self@.state is Finished,
        ensures
            result_view(&r) == self@.state->Finished_outcome,
    {
        match self.state {
            JoinState::Finished { outcome } => outcome,
            _ => unreached(),
        }
    }
}

/// A join that meets an expired invitation ends with `InvitationHasExpired`
/// and never reaches the deletion step: the expired invitation is left
/// stored.
pub proof fn expired_invitation_is_left_in_place(
    saga: JoinSagaV,
    invitation: InvitationV,
    now: u64,
)
    requires
        saga.state is FetchInvitation,
        invitation.spec_expired_at(now),
    ensures
        ({
            let done = saga.spec_on_invitation_fetched(ReplyV::Replied(Ok(Some(invitation))), now);
            &&& done.state matches JoinStateV::Finished { outcome: Err(e) } && e.kind
                == ErrorKind::InvitationHasExpired
        }),
{
}

} // verus!
