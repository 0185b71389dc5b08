use vstd::prelude::*;

use crate::elements::Organization;
use crate::elements::OrganizationV;
use crate::elements::User;
use crate::elements::UserOrganization;
use crate::elements::UserV;
use crate::error::Error;
use crate::error::ErrorKind;
use crate::error::ErrorV;
use crate::organization_permission::creator_permission_strings;
use crate::organization_permission::organization_creator_permissions;
use crate::requests::OrganizationStorageAction;
use crate::requests::ReplyV;
use crate::requests::StorageReply;
use crate::requests::StorageRequest;
use crate::requests::UserStorageAction;
use crate::text::str_new;
use crate::validation::country_code_accepted;
use crate::validation::has_user_no_organization;
use crate::validation::is_country_code_valid;
use crate::validation::is_name_already_used;
use crate::validation::is_telephone_being_used;
use crate::validation::is_telephone_valid;
use crate::validation::result_view;
use crate::validation::spec_telephone_valid;
use crate::validation::spec_transport_error;
use crate::validation::spec_user_unattached;
use crate::validation::transport_error;

verus! {

/// Abstract state of a create-organization saga.
pub enum CreateStateV {
    /// Awaiting the reply to `FindUserById`: may the user create at all?
    CheckUser,
    /// Awaiting the reply to `FindByName`: is the name free?
    CheckName,
    /// Awaiting the reply to `FindByTelephone`: is the telephone free?
    CheckTelephone,
    /// Awaiting the reply to the organization insert.
    CreateOrganization,
    /// The organization exists; awaiting the reply to the membership insert.
    AttachMembership { organization: OrganizationV },
    /// The membership insert failed; awaiting the reply to the compensating
    /// delete of the organization created before.
    Compensate { organization: OrganizationV, error: ErrorV },
    /// The saga is over; `outcome` is the one reply owed to the caller.
    Finished { outcome: Result<OrganizationV, ErrorV> },
}

/// Abstract value of a [`CreateOrganizationSaga`].
pub struct CreateSagaV {
    pub user_id: Seq<char>,
    pub name: Seq<char>,
    pub country: Seq<char>,
    pub address: Seq<char>,
    pub telephone: Seq<char>,
    pub state: CreateStateV,
}

impl CreateSagaV {
    /// The same saga, over with the given error.
    pub open spec fn finish_err(self, kind: ErrorKind, message: Seq<char>) -> CreateSagaV {
        CreateSagaV {
            state: CreateStateV::Finished { outcome: Err(ErrorV { kind, message }) },
            ..self
        }
    }

    /// The same saga, over with the error a failed storage round trip left.
    pub open spec fn finish_transport_err(self, reply_lost: bool) -> CreateSagaV {
        if reply_lost {
            self.finish_err(
                ErrorKind::InternalFailure,
                "failed to receive response for a storage request"@,
            )
        } else {
            self.finish_err(ErrorKind::InternalFailure, "failed to send storage request"@)
        }
    }

    /// Where the saga begins: the country code and the telephone format are
    /// judged before any storage round trip.
    pub open spec fn spec_start(
        user_id: Seq<char>,
        name: Seq<char>,
        country: Seq<char>,
        address: Seq<char>,
        telephone: Seq<char>,
        country_ok: bool,
        telephone_ok: bool,
    ) -> CreateSagaV {
        let base = CreateSagaV {
            user_id,
            name,
            country,
            address,
            telephone,
            state: CreateStateV::CheckUser,
        };
        if !country_ok {
            base.finish_err(ErrorKind::InvalidCountry, "invalid country code detected"@)
        } else if !telephone_ok {
            base.finish_err(ErrorKind::InvalidTelephone, "invalid telephone detected"@)
        } else {
            base
        }
    }

    /// How the `FindUserById` reply moves the saga on: a user already holding
    /// a membership may not create an organization.
    pub open spec fn spec_on_user_checked(self, reply: ReplyV<Option<UserV>>) -> CreateSagaV {
        match reply {
            ReplyV::SendFailed => self.finish_transport_err(false),
            ReplyV::ReceiveFailed => self.finish_transport_err(true),
            ReplyV::Replied(Err(e)) => self.finish_err(e.kind, e.message),
            ReplyV::Replied(Ok(found)) => if spec_user_unattached(found) {
                CreateSagaV { state: CreateStateV::CheckName, ..self }
            } else {
                self.finish_err(
                    ErrorKind::UserCannotCreateOrganization,
                    "user cannot create an organization"@,
                )
            },
        }
    }

    /// How the `FindByName` reply moves the saga on: a stored organization
    /// with the requested name ends the saga.
    pub open spec fn spec_on_name_checked(self, reply: ReplyV<Option<OrganizationV>>) -> CreateSagaV {
        match reply {
            ReplyV::SendFailed => self.finish_transport_err(false),
            ReplyV::ReceiveFailed => self.finish_transport_err(true),
            ReplyV::Replied(Err(e)) => self.finish_err(e.kind, e.message),
            ReplyV::Replied(Ok(found)) => if found is Some {
                self.finish_err(ErrorKind::NameAlreadyTaken, "name is already being used"@)
            } else {
                CreateSagaV { state: CreateStateV::CheckTelephone, ..self }
            },
        }
    }

    /// How the `FindByTelephone` reply moves the saga on: a stored
    /// organization with the requested telephone ends the saga.
    pub open spec fn spec_on_telephone_checked(
        self,
        reply: ReplyV<Option<OrganizationV>>,
    ) -> CreateSagaV {
        match reply {
            ReplyV::SendFailed => self.finish_transport_err(false),
            ReplyV::ReceiveFailed => self.finish_transport_err(true),
            ReplyV::Replied(Err(e)) => self.finish_err(e.kind, e.message),
            ReplyV::Replied(Ok(found)) => if found is Some {
                self.finish_err(
                    ErrorKind::TelephoneAlreadyInUse,
                    "telephone is already being used"@,
                )
            } else {
                CreateSagaV { state: CreateStateV::CreateOrganization, ..self }
            },
        }
    }

    /// How the organization-insert reply moves the saga on: on success the
    /// saga still owes the membership insert.
    pub open spec fn spec_on_organization_created(
        self,
        reply: ReplyV<OrganizationV>,
    ) -> CreateSagaV {
        match reply {
            ReplyV::SendFailed => self.finish_transport_err(false),
            ReplyV::ReceiveFailed => self.finish_transport_err(true),
            ReplyV::Replied(Err(e)) => self.finish_err(e.kind, e.message),
            ReplyV::Replied(Ok(organization)) => CreateSagaV {
                state: CreateStateV::AttachMembership { organization },
                ..self
            },
        }
    }

    /// How the membership-insert reply moves the saga on: any failure — the
    /// request not sent, the reply lost, or a storage error — demands the
    /// compensating delete before the saga may finish with that failure's
    /// error.
    pub open spec fn spec_on_membership_attached(self, reply: ReplyV<UserV>) -> CreateSagaV
        recommends
            self.state is AttachMembership,
    {
        let organization = self.state->AttachMembership_organization;
        match reply {
            ReplyV::SendFailed => CreateSagaV {
                state: CreateStateV::Compensate {
                    organization,
                    error: ErrorV {
                        kind: ErrorKind::InternalFailure,
                        message: "failed to send storage request"@,
                    },
                },
                ..self
            },
            ReplyV::ReceiveFailed => CreateSagaV {
                state: CreateStateV::Compensate {
                    organization,
                    error: ErrorV {
                        kind: ErrorKind::InternalFailure,
                        message: "failed to receive response for a storage request"@,
                    },
                },
                ..self
            },
            ReplyV::Replied(Err(e)) => CreateSagaV {
                state: CreateStateV::Compensate { organization, error: e },
                ..self
            },
            ReplyV::Replied(Ok(_)) => CreateSagaV {
                state: CreateStateV::Finished { outcome: Ok(organization) },
                ..self
            },
        }
    }

    /// How the compensating-delete reply moves the saga on: whatever it says,
    /// the saga finishes with the error that demanded compensation — a
    /// compensation failure is logged by the caller, never surfaced.
    pub open spec fn spec_on_compensated(self, reply: ReplyV<()>) -> CreateSagaV
        recommends
            self.state is Compensate,
    {
        self.finish_err(
            self.state->Compensate_error.kind,
            self.state->Compensate_error.message,
        )
    }
}

/// Exec state of a create-organization saga; see [`CreateStateV`].
pub enum CreateState {
    CheckUser,
    CheckName,
    CheckTelephone,
    CreateOrganization,
    AttachMembership { organization: Organization },
    Compensate { organization: Organization, error: Error },
    Finished { outcome: Result<Organization, Error> },
}

impl View for CreateState {
    type V = CreateStateV;

    open spec fn view(&self) -> CreateStateV {
        match self {
            CreateState::CheckUser => CreateStateV::CheckUser,
            CreateState::CheckName => CreateStateV::CheckName,
            CreateState::CheckTelephone => CreateStateV::CheckTelephone,
            CreateState::CreateOrganization => CreateStateV::CreateOrganization,
            CreateState::AttachMembership { organization } => CreateStateV::AttachMembership {
                organization: organization@,
            },
            CreateState::Compensate { organization, error } => CreateStateV::Compensate {
                organization: organization@,
                error: error@,
            },
            CreateState::Finished { outcome: Ok(organization) } => CreateStateV::Finished {
                outcome: Ok(organization@),
            },
            CreateState::Finished { outcome: Err(error) } => CreateStateV::Finished {
                outcome: Err(error@),
            },
        }
    }
}

/// The create-organization saga: every business rule of the operation, run
/// one storage reply at a time. The caller performs the storage round trip
/// that [`Self::pending_request`] names and hands the reply to the matching
/// step; when the state is `Finished`, the outcome is the one reply owed to
/// the original caller.
pub struct CreateOrganizationSaga {
    pub user_id: String,
    pub name: String,
    pub country: String,
    pub address: String,
    pub telephone: String,
    pub state: CreateState,
}

impl View for CreateOrganizationSaga {
    type V = CreateSagaV;

    open spec fn view(&self) -> CreateSagaV {
        CreateSagaV {
            user_id: self.user_id@,
            name: self.name@,
            country: self.country@,
            address: self.address@,
            telephone: self.telephone@,
            state: self.state@,
        }
    }
}

impl CreateOrganizationSaga {
    /// Begin the saga. The country code and the telephone format are
    /// validated here; every further rule needs a storage round trip.
    pub fn start(
        user_id: String,
        name: String,
        country: String,
        address: String,
        telephone: String,
    ) -> (r: Self)
        ensures
            r@ == CreateSagaV::spec_start(
                user_id@,
                name@,
                country@,
                address@,
                telephone@,
                country_code_accepted(country@),
                spec_telephone_valid(telephone@),
            ),
    {
        let country_ok = is_country_code_valid(country.as_str());
        let telephone_ok = is_telephone_valid(telephone.as_str());
        let state = if !country_ok {
            CreateState::Finished {
                outcome: Err(
                    Error::new(ErrorKind::InvalidCountry, str_new("invalid country code detected")),
                ),
            }
        } else if !telephone_ok {
            CreateState::Finished {
                outcome: Err(
                    Error::new(ErrorKind::InvalidTelephone, str_new("invalid telephone detected")),
                ),
            }
        } else {
            CreateState::CheckUser
        };
        CreateOrganizationSaga { user_id, name, country, address, telephone, state }
    }

    /// The storage request the saga is waiting on, none once it is finished.
    pub fn pending_request(&self) -> (r: Option<StorageRequest>)
        ensures
            ({
                let s = self@;
                match s.state {
                    CreateStateV::CheckUser => r matches Some(
                        StorageRequest::UserRequest(UserStorageAction::FindUserById { user_id }),
                    ) && user_id@ == s.user_id,
                    CreateStateV::CheckName => r matches Some(
                        StorageRequest::OrganizationRequest(
                            OrganizationStorageAction::FindByName { name },
                        ),
                    ) && name@ == s.name,
                    CreateStateV::CheckTelephone => r matches Some(
                        StorageRequest::OrganizationRequest(
                            OrganizationStorageAction::FindByTelephone { telephone },
                        ),
                    ) && telephone@ == s.telephone,
                    CreateStateV::CreateOrganization => r matches Some(
                        StorageRequest::OrganizationRequest(
                            OrganizationStorageAction::Create { name, country, address, telephone },
                        ),
                    ) && name@ == s.name && country@ == s.country && address@ == s.address
                        && telephone@ == s.telephone,
                    CreateStateV::AttachMembership { organization } => r matches Some(
                        StorageRequest::UserRequest(UserStorageAction::Create { id, organization: membership }),
                    ) && id@ == s.user_id && membership@.organization_id == organization.id
                        && membership@.permissions == creator_permission_strings(),
                    CreateStateV::Compensate { organization, .. } => r matches Some(
                        StorageRequest::OrganizationRequest(OrganizationStorageAction::Delete { id }),
                    ) && id@ == organization.id,
                    CreateStateV::Finished { .. } => r is None,
                }
            }),
    {
        match &self.state {
            CreateState::CheckUser => Some(
                StorageRequest::UserRequest(
                    UserStorageAction::FindUserById { user_id: self.user_id.clone() },
                ),
            ),
            CreateState::CheckName => Some(
                StorageRequest::OrganizationRequest(
                    OrganizationStorageAction::FindByName { name: self.name.clone() },
                ),
            ),
            CreateState::CheckTelephone => Some(
                StorageRequest::OrganizationRequest(
                    OrganizationStorageAction::FindByTelephone {
                        telephone: self.telephone.clone(),
                    },
                ),
            ),
            CreateState::CreateOrganization => Some(
                StorageRequest::OrganizationRequest(
                    OrganizationStorageAction::Create {
                        name: self.name.clone(),
                        country: self.country.clone(),
                        address: self.address.clone(),
                        telephone: self.telephone.clone(),
                    },
                ),
            ),
            CreateState::AttachMembership { organization } => Some(
                StorageRequest::UserRequest(
                    UserStorageAction::Create {
                        id: self.user_id.clone(),
                        organization: UserOrganization {
                            organization_id: organization.id.clone(),
                            permissions: organization_creator_permissions(),
                        },
                    },
                ),
            ),
            CreateState::Compensate { organization, .. } => Some(
                StorageRequest::OrganizationRequest(
                    OrganizationStorageAction::Delete { id: organization.id.clone() },
                ),
            ),
            CreateState::Finished { .. } => None,
        }
    }

    /// Feed the saga the reply to `FindUserById`.
    pub fn on_user_checked(self, reply: StorageReply<Option<User>>) -> (r: Self)
        requires
            self@.state is CheckUser,
        ensures
            r@ == self@.spec_on_user_checked(reply@),
    {
        match has_user_no_organization(reply) {
            Err(error) => CreateOrganizationSaga {
                state: CreateState::Finished { outcome: Err(error) },
                ..self
            },
            Ok(true) => CreateOrganizationSaga { state: CreateState::CheckName, ..self },
            Ok(false) => CreateOrganizationSaga {
                state: CreateState::Finished {
                    outcome: Err(
                        Error::new(
                            ErrorKind::UserCannotCreateOrganization,
                            str_new("user cannot create an organization"),
                        ),
                    ),
                },
                ..self
            },
        }
    }

    /// Feed the saga the reply to `FindByName`.
    pub fn on_name_checked(self, reply: StorageReply<Option<Organization>>) -> (r: Self)
        requires
            self@.state is CheckName,
        ensures
            r@ == self@.spec_on_name_checked(reply@),
    {
        match is_name_already_used(reply) {
            Err(error) => CreateOrganizationSaga {
                state: CreateState::Finished { outcome: Err(error) },
                ..self
            },
            Ok(false) => CreateOrganizationSaga { state: CreateState::CheckTelephone, ..self },
            Ok(true) => CreateOrganizationSaga {
                state: CreateState::Finished {
                    outcome: Err(
                        Error::new(
                            ErrorKind::NameAlreadyTaken,
                            str_new("name is already being used"),
                        ),
                    ),
                },
                ..self
            },
        }
    }

    /// Feed the saga the reply to `FindByTelephone`.
    pub fn on_telephone_checked(self, reply: StorageReply<Option<Organization>>) -> (r: Self)
        requires
            self@.state is CheckTelephone,
        ensures
            r@ == self@.spec_on_telephone_checked(reply@),
    {
        match is_telephone_being_used(reply) {
            Err(error) => CreateOrganizationSaga {
                state: CreateState::Finished { outcome: Err(error) },
                ..self
            },
            Ok(false) => CreateOrganizationSaga { state: CreateState::CreateOrganization, ..self },
            Ok(true) => CreateOrganizationSaga {
                state: CreateState::Finished {
                    outcome: Err(
                        Error::new(
                            ErrorKind::TelephoneAlreadyInUse,
                            str_new("telephone is already being used"),
                        ),
                    ),
                },
                ..self
            },
        }
    }

    /// Feed the saga the reply to the organization insert.
    pub fn on_organization_created(self, reply: StorageReply<Organization>) -> (r: Self)
        requires
            self@.state is CreateOrganization,
        ensures
            r@ == self@.spec_on_organization_created(reply@),
    {
        match reply {
            StorageReply::SendFailed => CreateOrganizationSaga {
                state: CreateState::Finished { outcome: Err(transport_error(false)) },
                ..self
            },
            StorageReply::ReceiveFailed => CreateOrganizationSaga {
                state: CreateState::Finished { outcome: Err(transport_error(true)) },
                ..self
            },
            StorageReply::Replied(Err(error)) => CreateOrganizationSaga {
                state: CreateState::Finished { outcome: Err(error) },
                ..self
            },
            StorageReply::Replied(Ok(organization)) => CreateOrganizationSaga {
                state: CreateState::AttachMembership { organization },
                ..self
            },
        }
    }

    /// Feed the saga the reply to the membership insert. On failure the saga
    /// turns to compensation: the organization it created must be deleted
    /// before the failure is reported.
    pub fn on_membership_attached(self, reply: StorageReply<User>) -> (r: Self)
        requires
            self@.state is AttachMembership,
        ensures
            r@ == self@.spec_on_membership_attached(reply@),
    {
        let CreateOrganizationSaga { user_id, name, country, address, telephone, state } = self;
        let organization = match state {
            CreateState::AttachMembership { organization } => organization,
            _ => unreached(),
        };
        let state = match reply {
            StorageReply::SendFailed => CreateState::Compensate {
                organization,
                error: transport_error(false),
            },
            StorageReply::ReceiveFailed => CreateState::Compensate {
                organization,
                error: transport_error(true),
            },
            StorageReply::Replied(Err(error)) => CreateState::Compensate { organization, error },
            StorageReply::Replied(Ok(_)) => CreateState::Finished {
                outcome: Ok(organization),
            },
        };
        CreateOrganizationSaga { user_id, name, country, address, telephone, state }
    }

    /// Feed the saga the reply to the compensating delete. Whatever it says,
    /// the saga finishes with the error that demanded compensation; a failed
    /// compensation is the caller's to log.
    pub fn on_compensated(self, reply: StorageReply<()>) -> (r: Self)
        requires
            self@.state is Compensate,
        ensures
            r@ == self@.spec_on_compensated(reply@),
    {
        let CreateOrganizationSaga { user_id, name, country, address, telephone, state } = self;
        let error = match state {
            CreateState::Compensate { organization: _, error } => error,
            _ => unreached(),
        };
        CreateOrganizationSaga {
            user_id,
            name,
            country,
            address,
            telephone,
            state: CreateState::Finished { outcome: Err(error) },
        }
    }

    /// Whether the saga is over.
    pub fn is_finished(&self) -> (r: bool)
        ensures
            r == (self@.state is Finished),
    {
        match &self.state {
            CreateState::Finished { .. } => true,
            _ => false,
        }
    }

    /// The one reply owed to the caller, once the saga is over.
    pub fn into_outcome(self) -> (r: Result<Organization, Error>)
        requires
            self@.state is Finished,
        ensures
            result_view(&r) == self@.state->Finished_outcome,
    {
        match self.state {
            CreateState::Finished { outcome } => outcome,
            _ => unreached(),
        }
    }
}

/// Saga rollback: when attaching the membership fails in any way — the
/// request was not sent, the reply was lost, or storage answered with an
/// error — the saga demands the compensating delete of the organization it
/// created, and then finishes with the membership step's error, whatever the
/// compensating delete replied.
pub proof fn rollback_returns_membership_error(
    saga: CreateSagaV,
    organization: OrganizationV,
    membership_reply: ReplyV<UserV>,
    delete_reply: ReplyV<()>,
)
    requires
        saga.state == (CreateStateV::AttachMembership { organization }),
        !(membership_reply matches ReplyV::Replied(Ok(_))),
    ensures
        ({
            let compensating = saga.spec_on_membership_attached(membership_reply);
            let done = compensating.spec_on_compensated(delete_reply);
            &&& compensating.state matches CreateStateV::Compensate { organization: o, error: _ }
                && o == organization
            &&& done.state matches CreateStateV::Finished { outcome: Err(e) } && match membership_reply {
                ReplyV::Replied(Err(e0)) => e == e0,
                ReplyV::SendFailed => spec_transport_error(e, false),
                ReplyV::ReceiveFailed => spec_transport_error(e, true),
                ReplyV::Replied(Ok(_)) => false,
            }
        }),
{
}

} // verus!
