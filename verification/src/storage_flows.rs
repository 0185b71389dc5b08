use vstd::prelude::*;
use vstd::string::StringExecFns;
use vstd::string::StrSliceExecFns;

use crate::elements::Invitation;
use crate::elements::Organization;
use crate::elements::OrganizationRoot;
use crate::elements::OrganizationRootV;
use crate::elements::OrganizationV;
use crate::elements::User;
use crate::elements::UserOrganization;
use crate::elements::UserV;
use crate::error::Error;
use crate::error::ErrorKind;
use crate::error::ErrorV;
use crate::text::str_new;
use crate::validation::result_view;

verus! {

/// A hexadecimal digit, in either case.
pub open spec fn spec_hex_digit(c: char) -> bool {
    ('0' <= c && c <= '9') || ('a' <= c && c <= 'f') || ('A' <= c && c <= 'F')
}

/// The textual form of a document identifier: the 12 identifier bytes
/// written as 24 hexadecimal digits. This is the set of strings the
/// document store parses back into an identifier.
pub open spec fn object_id_accepted(s: Seq<char>) -> bool {
    s.len() == 24 && (forall|i: int| 0 <= i < s.len() ==> spec_hex_digit(#[trigger] s[i]))
}

/// Whether the string is the textual form of a document identifier.
pub fn is_object_id(id: &str) -> (r: bool)
    ensures
        r == object_id_accepted(id@),
{
    let len = id.unicode_len();
    if len != 24 {
        return false;
    }
    let mut i: usize = 0;
    while i < 24
        invariant
            i <= 24,
            id@.len() == 24,
            forall|j: int| 0 <= j < i ==> spec_hex_digit(#[trigger] id@[j]),
        decreases 24 - i,
    {
        let c = id.get_char(i);
        let ok = ('0' <= c && c <= '9') || ('a' <= c && c <= 'f') || ('A' <= c && c <= 'F');
        if !ok {
            return false;
        }
        i = i + 1;
    }
    true
}

/// The reply to a by-identifier storage action whose identifier does not
/// parse.
pub open spec fn spec_bad_id_error(e: ErrorV) -> bool {
    e.kind == ErrorKind::InvalidArgument && e.message == "failed to parse organization id"@
}

/// Refuse a by-identifier storage action whose identifier is not the textual
/// form of a document identifier: the store is never asked.
pub fn check_object_id(id: &str) -> (r: Result<(), Error>)
    ensures
        r is Ok <==> object_id_accepted(id@),
        r matches Err(e) ==> spec_bad_id_error(e@),
{
    if is_object_id(id) {
        Ok(())
    } else {
        Err(Error::new(ErrorKind::InvalidArgument, str_new("failed to parse organization id")))
    }
}

/// What the document store said to an insert: the generated identifier, a
/// result that carried no identifier, or a driver failure with its message.
pub enum InsertOutcome {
    Inserted { id: String },
    MissingId,
    Failed { message: String },
}

/// Abstract value of an [`InsertOutcome`].
pub enum InsertOutcomeV {
    Inserted { id: Seq<char> },
    MissingId,
    Failed { message: Seq<char> },
}

impl View for InsertOutcome {
    type V = InsertOutcomeV;

    open spec fn view(&self) -> InsertOutcomeV {
        match self {
            InsertOutcome::Inserted { id } => InsertOutcomeV::Inserted { id: id@ },
            InsertOutcome::MissingId => InsertOutcomeV::MissingId,
            InsertOutcome::Failed { message } => InsertOutcomeV::Failed { message: message@ },
        }
    }
}

/// Abstract state of the organization-create storage flow.
pub enum OrganizationCreateStateV {
    /// Awaiting the insert of the organization document.
    AwaitInsert,
    /// The document went in but its identifier could not be read back;
    /// awaiting the best-effort delete of the just-inserted document.
    Revert,
    /// The flow is over; `outcome` is the reply owed to the logic layer.
    Finished { outcome: Result<OrganizationV, ErrorV> },
}

/// Abstract value of an [`OrganizationCreateFlow`].
pub struct OrganizationCreateFlowV {
    pub name: Seq<char>,
    pub country: Seq<char>,
    pub address: Seq<char>,
    pub telephone: Seq<char>,
    pub state: OrganizationCreateStateV,
}

impl OrganizationCreateFlowV {
    /// The organization the flow yields once the store assigned `id`.
    pub open spec fn created(self, id: Seq<char>) -> OrganizationV {
        OrganizationV {
            id,
            name: self.name,
            country: self.country,
            address: self.address,
            telephone: self.telephone,
            permissions: Seq::empty(),
        }
    }

    /// How the insert outcome moves the flow on: with no identifier to hand
    /// back, the inserted document must be removed again.
    pub open spec fn spec_on_inserted(self, outcome: InsertOutcomeV) -> OrganizationCreateFlowV {
        match outcome {
            InsertOutcomeV::Inserted { id } => OrganizationCreateFlowV {
                state: OrganizationCreateStateV::Finished { outcome: Ok(self.created(id)) },
                ..self
            },
            InsertOutcomeV::MissingId => OrganizationCreateFlowV {
                state: OrganizationCreateStateV::Revert,
                ..self
            },
            InsertOutcomeV::Failed { message } => OrganizationCreateFlowV {
                state: OrganizationCreateStateV::Finished {
                    outcome: Err(
                        ErrorV {
                            kind: ErrorKind::InternalFailure,
                            message: "failed to insert organization: "@ + message,
                        },
                    ),
                },
                ..self
            },
        }
    }

    /// How the reverting delete moves the flow on: a clean reversion is the
    /// distinguished `ProcessReversion`, a failed one `InternalFailure`.
    pub open spec fn spec_on_reverted(
        self,
        outcome: Result<(), Seq<char>>,
    ) -> OrganizationCreateFlowV {
        match outcome {
            Ok(_) => OrganizationCreateFlowV {
                state: OrganizationCreateStateV::Finished {
                    outcome: Err(
                        ErrorV {
                            kind: ErrorKind::ProcessReversion,
                            message: "failed to get organization id, process reverted"@,
                        },
                    ),
                },
                ..self
            },
            Err(message) => OrganizationCreateFlowV {
                state: OrganizationCreateStateV::Finished {
                    outcome: Err(
                        ErrorV {
                            kind: ErrorKind::InternalFailure,
                            message: "failed to revert create organization: "@ + message,
                        },
                    ),
                },
                ..self
            },
        }
    }
}

/// Exec state of the organization-create storage flow; see
/// [`OrganizationCreateStateV`].
pub enum OrganizationCreateState {
    AwaitInsert,
    Revert,
    Finished { outcome: Result<Organization, Error> },
}

impl View for OrganizationCreateState {
    type V = OrganizationCreateStateV;

    open spec fn view(&self) -> OrganizationCreateStateV {
        match self {
            OrganizationCreateState::AwaitInsert => OrganizationCreateStateV::AwaitInsert,
            OrganizationCreateState::Revert => OrganizationCreateStateV::Revert,
            OrganizationCreateState::Finished { outcome: Ok(organization) } => OrganizationCreateStateV::Finished {
                outcome: Ok(organization@),
            },
            OrganizationCreateState::Finished { outcome: Err(error) } => OrganizationCreateStateV::Finished {
                outcome: Err(error@),
            },
        }
    }
}

/// The storage flow behind `OrganizationStorageAction::Create`: insert the
/// document, and if the store cannot hand the generated identifier back,
/// delete the just-inserted document again before failing.
pub struct OrganizationCreateFlow {
    pub name: String,
    pub country: String,
    pub address: String,
    pub telephone: String,
    pub state: OrganizationCreateState,
}

impl View for OrganizationCreateFlow {
    type V = OrganizationCreateFlowV;

    open spec fn view(&self) -> OrganizationCreateFlowV {
        OrganizationCreateFlowV {
            name: self.name@,
            country: self.country@,
            address: self.address@,
            telephone: self.telephone@,
            state: self.state@,
        }
    }
}

impl OrganizationCreateFlow {
    /// Begin the flow for the given organization fields.
    pub fn start(name: String, country: String, address: String, telephone: String) -> (r: Self)
        ensures
            r@ == (OrganizationCreateFlowV {
                name: name@,
                country: country@,
                address: address@,
                telephone: telephone@,
                state: OrganizationCreateStateV::AwaitInsert,
            }),
    {
        OrganizationCreateFlow {
            name,
            country,
            address,
            telephone,
            state: OrganizationCreateState::AwaitInsert,
        }
    }

    /// Feed the flow what the store said to the insert.
    pub fn on_inserted(self, outcome: InsertOutcome) -> (r: Self)
        requires
            self@.state is AwaitInsert,
        ensures
            r@ == self@.spec_on_inserted(outcome@),
    {
        let OrganizationCreateFlow { name, country, address, telephone, state: _ } = self;
        match outcome {
            InsertOutcome::Inserted { id } => {
                let organization = Organization {
                    id,
                    name,
                    country,
                    address,
                    telephone,
                    permissions: Vec::new(),
                };
                proof {
                    assert(organization.permissions.deep_view() =~= Seq::<Seq<char>>::empty());
                }
                let name = organization.name.clone();
                let country = organization.country.clone();
                let address = organization.address.clone();
                let telephone = organization.telephone.clone();
                OrganizationCreateFlow {
                    name,
                    country,
                    address,
                    telephone,
                    state: OrganizationCreateState::Finished { outcome: Ok(organization) },
                }
            },
            InsertOutcome::MissingId => OrganizationCreateFlow {
                name,
                country,
                address,
                telephone,
                state: OrganizationCreateState::Revert,
            },
            InsertOutcome::Failed { message } => OrganizationCreateFlow {
                name,
                country,
                address,
                telephone,
                state: OrganizationCreateState::Finished {
                    outcome: Err(
                        Error::new(
                            ErrorKind::InternalFailure,
                            str_new("failed to insert organization: ").concat(message.as_str()),
                        ),
                    ),
                },
            },
        }
    }

    /// Feed the flow what the store said to the reverting delete.
    pub fn on_reverted(self, outcome: Result<(), String>) -> (r: Self)
        requires
            self@.state is Revert,
        ensures
            r@ == self@.spec_on_reverted(
                match outcome {
                    Ok(_) => Ok(()),
                    Err(message) => Err(message@),
                },
            ),
    {
        let OrganizationCreateFlow { name, country, address, telephone, state: _ } = self;
        let error = match outcome {
            Ok(_) => Error::new(
                ErrorKind::ProcessReversion,
                str_new("failed to get organization id, process reverted"),
            ),
            Err(message) => Error::new(
                ErrorKind::InternalFailure,
                str_new("failed to revert create organization: ").concat(message.as_str()),
            ),
        };
        OrganizationCreateFlow {
            name,
            country,
            address,
            telephone,
            state: OrganizationCreateState::Finished { outcome: Err(error) },
        }
    }

    /// The reply owed to the logic layer, once the flow is over.
    pub fn into_outcome(self) -> (r: Result<Organization, Error>)
        requires
            self@.state is Finished,
        ensures
            result_view(&r) == self@.state->Finished_outcome,
    {
        match self.state {
            OrganizationCreateState::Finished { outcome } => outcome,
            _ => unreached(),
        }
    }
}

/// Abstract state of the user-create storage flow.
pub enum UserCreateStateV {
    AwaitInsert,
    Revert,
    Finished { outcome: Result<UserV, ErrorV> },
}

/// Abstract value of a [`UserCreateFlow`].
pub struct UserCreateFlowV {
    pub id: Seq<char>,
    pub organization: crate::elements::UserOrganizationV,
    pub state: UserCreateStateV,
}

impl UserCreateFlowV {
    /// The user the flow yields: the subject identifier with its one
    /// membership.
    pub open spec fn created(self) -> UserV {
        UserV { id: self.id, organizations: seq![self.organization] }
    }

    /// How the insert outcome moves the flow on. The store's generated
    /// identifier is not part of the user, so its value is not used; but a
    /// result without one means the insert cannot be confirmed, and the
    /// document is removed again.
    pub open spec fn spec_on_inserted(self, outcome: InsertOutcomeV) -> UserCreateFlowV {
        match outcome {
            InsertOutcomeV::Inserted { .. } => UserCreateFlowV {
                state: UserCreateStateV::Finished { outcome: Ok(self.created()) },
                ..self
            },
            InsertOutcomeV::MissingId => UserCreateFlowV { state: UserCreateStateV::Revert, ..self },
            InsertOutcomeV::Failed { message } => UserCreateFlowV {
                state: UserCreateStateV::Finished {
                    outcome: Err(
                        ErrorV {
                            kind: ErrorKind::InvalidArgument,
                            message: "failed to create user: "@ + message,
                        },
                    ),
                },
                ..self
            },
        }
    }

    /// How the reverting delete moves the flow on.
    pub open spec fn spec_on_reverted(self, outcome: Result<(), Seq<char>>) -> UserCreateFlowV {
        match outcome {
            Ok(_) => UserCreateFlowV {
                state: UserCreateStateV::Finished {
                    outcome: Err(
                        ErrorV {
                            kind: ErrorKind::ProcessReversion,
                            message: "failed to get user id, process reverted"@,
                        },
                    ),
                },
                ..self
            },
            Err(message) => UserCreateFlowV {
                state: UserCreateStateV::Finished {
                    outcome: Err(
                        ErrorV {
                            kind: ErrorKind::InternalFailure,
                            message: "failed to revert create user: "@ + message,
                        },
                    ),
                },
                ..self
            },
        }
    }
}

/// Exec state of the user-create storage flow; see [`UserCreateStateV`].
pub enum UserCreateState {
    AwaitInsert,
    Revert,
    Finished { outcome: Result<User, Error> },
}

impl View for UserCreateState {
    type V = UserCreateStateV;

    open spec fn view(&self) -> UserCreateStateV {
        match self {
            UserCreateState::AwaitInsert => UserCreateStateV::AwaitInsert,
            UserCreateState::Revert => UserCreateStateV::Revert,
            UserCreateState::Finished { outcome: Ok(user) } => UserCreateStateV::Finished {
                outcome: Ok(user@),
            },
            UserCreateState::Finished { outcome: Err(error) } => UserCreateStateV::Finished {
                outcome: Err(error@),
            },
        }
    }
}

/// The storage flow behind `UserStorageAction::Create`: insert the user
/// document with its single membership, with the same reversion pattern as
/// the organization insert.
pub struct UserCreateFlow {
    pub id: String,
    pub organization: UserOrganization,
    pub state: UserCreateState,
}

impl View for UserCreateFlow {
    type V = UserCreateFlowV;

    open spec fn view(&self) -> UserCreateFlowV {
        UserCreateFlowV { id: self.id@, organization: self.organization@, state: self.state@ }
    }
}

impl UserCreateFlow {
    /// Begin the flow for the given subject and membership.
    pub fn start(id: String, organization: UserOrganization) -> (r: Self)
        ensures
            r@ == (UserCreateFlowV {
                id: id@,
                organization: organization@,
                state: UserCreateStateV::AwaitInsert,
            }),
    {
        UserCreateFlow { id, organization, state: UserCreateState::AwaitInsert }
    }

    /// Feed the flow what the store said to the insert.
    pub fn on_inserted(self, outcome: InsertOutcome) -> (r: Self)
        requires
            self@.state is AwaitInsert,
        ensures
            r@ == self@.spec_on_inserted(outcome@),
    {
        let UserCreateFlow { id, organization, state: _ } = self;
        match outcome {
            InsertOutcome::Inserted { .. } => {
                let mut organizations: Vec<UserOrganization> = Vec::new();
                organizations.push(organization);
                let user = User { id, organizations };
                proof {
                    assert(user.organizations.deep_view() =~= seq![user.organizations[0]@]);
                }
                let id = user.id.clone();
                let organization = UserOrganization {
                    organization_id: user.organizations[0].organization_id.clone(),
                    permissions: crate::text::clone_strings(&user.organizations[0].permissions),
                };
                UserCreateFlow {
                    id,
                    organization,
                    state: UserCreateState::Finished { outcome: Ok(user) },
                }
            },
            InsertOutcome::MissingId => UserCreateFlow {
                id,
                organization,
                state: UserCreateState::Revert,
            },
            InsertOutcome::Failed { message } => UserCreateFlow {
                id,
                organization,
                state: UserCreateState::Finished {
                    outcome: Err(
                        Error::new(
                            ErrorKind::InvalidArgument,
                            str_new("failed to create user: ").concat(message.as_str()),
                        ),
                    ),
                },
            },
        }
    }

    /// Feed the flow what the store said to the reverting delete.
    pub fn on_reverted(self, outcome: Result<(), String>) -> (r: Self)
        requires
            self@.state is Revert,
        ensures
            r@ == self@.spec_on_reverted(
                match outcome {
                    Ok(_) => Ok(()),
                    Err(message) => Err(message@),
                },
            ),
    {
        let UserCreateFlow { id, organization, state: _ } = self;
        let error = match outcome {
            Ok(_) => Error::new(
                ErrorKind::ProcessReversion,
                str_new("failed to get user id, process reverted"),
            ),
            Err(message) => Error::new(
                ErrorKind::InternalFailure,
                str_new("failed to revert create user: ").concat(message.as_str()),
            ),
        };
        UserCreateFlow {
            id,
            organization,
            state: UserCreateState::Finished { outcome: Err(error) },
        }
    }

    /// The reply owed to the logic layer, once the flow is over.
    pub fn into_outcome(self) -> (r: Result<User, Error>)
        requires
            self@.state is Finished,
        ensures
            result_view(&r) == self@.state->Finished_outcome,
    {
        match self.state {
            UserCreateState::Finished { outcome } => outcome,
            _ => unreached(),
        }
    }
}

/// What the reply to an organization lookup is for each driver outcome: a
/// driver failure is an internal one.
pub open spec fn spec_organization_find_reply(
    outcome: Result<Option<OrganizationV>, Seq<char>>,
    r: Result<Option<OrganizationV>, ErrorV>,
) -> bool {
    match outcome {
        Ok(found) => r == Result::<Option<OrganizationV>, ErrorV>::Ok(found),
        Err(message) => r matches Err(e) && e.kind == ErrorKind::InternalFailure && e.message
            == "failed to find organization: "@ + message,
    }
}

/// The reply to `FindById`, `FindByName` or `FindByTelephone` on the
/// organization collection, given what the driver said.
pub fn organization_find_reply(outcome: Result<Option<Organization>, String>) -> (r: Result<
    Option<Organization>,
    Error,
>)
    ensures
        spec_organization_find_reply(
            match &outcome {
                Ok(found) => Ok(found.deep_view()),
                Err(message) => Err(message@),
            },
            result_view(&r),
        ),
{
    match outcome {
        Ok(found) => Ok(found),
        Err(message) => Err(
            Error::new(
                ErrorKind::InternalFailure,
                str_new("failed to find organization: ").concat(message.as_str()),
            ),
        ),
    }
}

/// The reply to `Delete` on the organization collection, given what the
/// driver said.
pub fn organization_delete_reply(outcome: Result<(), String>) -> (r: Result<(), Error>)
    ensures
        outcome is Ok <==> r is Ok,
        r matches Err(e) ==> e@.kind == ErrorKind::InternalFailure && (outcome matches Err(m)
            && e@.message == "failed to delete organization: "@ + m@),
{
    match outcome {
        Ok(_) => Ok(()),
        Err(message) => Err(
            Error::new(
                ErrorKind::InternalFailure,
                str_new("failed to delete organization: ").concat(message.as_str()),
            ),
        ),
    }
}

/// The reply to `FindByCode` on the invitation collection, given what the
/// driver said: a driver failure here is a storage one.
pub fn invitation_find_reply(outcome: Result<Option<Invitation>, String>) -> (r: Result<
    Option<Invitation>,
    Error,
>)
    ensures
        outcome matches Ok(found) ==> r matches Ok(f) && f.deep_view() == found.deep_view(),
        r matches Err(e) ==> e@.kind == ErrorKind::StorageFailure && (outcome matches Err(m)
            && e@.message == "failed to find invitation by code: "@ + m@),
        outcome is Ok <==> r is Ok,
{
    match outcome {
        Ok(found) => Ok(found),
        Err(message) => Err(
            Error::new(
                ErrorKind::StorageFailure,
                str_new("failed to find invitation by code: ").concat(message.as_str()),
            ),
        ),
    }
}

/// The reply to `Delete` on the invitation collection, given what the driver
/// said.
pub fn invitation_delete_reply(outcome: Result<(), String>) -> (r: Result<(), Error>)
    ensures
        outcome is Ok <==> r is Ok,
        r matches Err(e) ==> e@.kind == ErrorKind::StorageFailure && (outcome matches Err(m)
            && e@.message == "failed to delete invitation by code: "@ + m@),
{
    match outcome {
        Ok(_) => Ok(()),
        Err(message) => Err(
            Error::new(
                ErrorKind::StorageFailure,
                str_new("failed to delete invitation by code: ").concat(message.as_str()),
            ),
        ),
    }
}

/// The reply to `FindUserById` on the user collection, given what the driver
/// said.
pub fn user_find_reply(outcome: Result<Option<User>, String>) -> (r: Result<Option<User>, Error>)
    ensures
        outcome matches Ok(found) ==> r matches Ok(f) && f.deep_view() == found.deep_view(),
        r matches Err(e) ==> e@.kind == ErrorKind::StorageFailure && (outcome matches Err(m)
            && e@.message == "failed to find user by id: "@ + m@),
        outcome is Ok <==> r is Ok,
{
    match outcome {
        Ok(found) => Ok(found),
        Err(message) => Err(
            Error::new(
                ErrorKind::StorageFailure,
                str_new("failed to find user by id: ").concat(message.as_str()),
            ),
        ),
    }
}

/// Abstract state of the organization-root read flow.
pub enum OrganizationRootStateV {
    /// Awaiting the organization document.
    AwaitOrganization,
    /// Awaiting the users whose memberships reference the organization.
    AwaitUsers { organization: OrganizationV },
    /// Awaiting the invitations targeting the organization.
    AwaitInvitations { organization: OrganizationV, users: Seq<UserV> },
    /// The flow is over; `outcome` is the reply owed to the logic layer.
    Finished { outcome: Result<OrganizationRootV, ErrorV> },
}

/// Abstract value of an [`OrganizationRootFlow`].
pub struct OrganizationRootFlowV {
    pub organization_id: Seq<char>,
    pub state: OrganizationRootStateV,
}

impl OrganizationRootFlowV {
    /// The flow, over with the given error.
    pub open spec fn finish_err(self, kind: ErrorKind, message: Seq<char>) -> OrganizationRootFlowV {
        OrganizationRootFlowV {
            state: OrganizationRootStateV::Finished {
                outcome: Err(ErrorV { kind, message }),
            },
            ..self
        }
    }

    /// Where the flow begins: an identifier that does not parse never
    /// reaches the store.
    pub open spec fn spec_start(organization_id: Seq<char>, id_ok: bool) -> OrganizationRootFlowV {
        let base = OrganizationRootFlowV {
            organization_id,
            state: OrganizationRootStateV::AwaitOrganization,
        };
        if id_ok {
            base
        } else {
            base.finish_err(
                ErrorKind::InvalidArgument,
                "failed to parse organization id as ObjectId"@,
            )
        }
    }

    /// How the organization read moves the flow on: any sub-read failure
    /// aborts the whole read.
    pub open spec fn spec_on_organization(
        self,
        outcome: Result<Option<OrganizationV>, Seq<char>>,
    ) -> OrganizationRootFlowV {
        match outcome {
            Ok(Some(organization)) => OrganizationRootFlowV {
                state: OrganizationRootStateV::AwaitUsers { organization },
                ..self
            },
            Ok(None) => self.finish_err(
                ErrorKind::InvalidArgument,
                "organization with id '"@ + self.organization_id + "' not found"@,
            ),
            Err(message) => self.finish_err(
                ErrorKind::InternalFailure,
                "failed to read organization from database: "@ + message,
            ),
        }
    }

    /// How the user read moves the flow on.
    pub open spec fn spec_on_users(
        self,
        outcome: Result<Seq<UserV>, Seq<char>>,
    ) -> OrganizationRootFlowV
        recommends
            self.state is AwaitUsers,
    {
        let organization = self.state->AwaitUsers_organization;
        match outcome {
            Ok(users) => OrganizationRootFlowV {
                state: OrganizationRootStateV::AwaitInvitations { organization, users },
                ..self
            },
            Err(message) => self.finish_err(
                ErrorKind::InternalFailure,
                "failed to read users from database: "@ + message,
            ),
        }
    }

    /// How the invitation read moves the flow on: with all three reads done,
    /// the aggregate is assembled.
    pub open spec fn spec_on_invitations(
        self,
        outcome: Result<Seq<crate::elements::InvitationV>, Seq<char>>,
    ) -> OrganizationRootFlowV
        recommends
            self.state is AwaitInvitations,
    {
        let organization = self.state->AwaitInvitations_organization;
        let users = self.state->AwaitInvitations_users;
        match outcome {
            Ok(invitations) => OrganizationRootFlowV {
                state: OrganizationRootStateV::Finished {
                    outcome: Ok(OrganizationRootV { organization, users, invitations }),
                },
                ..self
            },
            Err(message) => self.finish_err(
                ErrorKind::InternalFailure,
                "failed to read invitations from database: "@ + message,
            ),
        }
    }
}

/// Exec state of the organization-root read flow; see
/// [`OrganizationRootStateV`].
pub enum OrganizationRootState {
    AwaitOrganization,
    AwaitUsers { organization: Organization },
    AwaitInvitations { organization: Organization, users: Vec<User> },
    Finished { outcome: Result<OrganizationRoot, Error> },
}

impl View for OrganizationRootState {
    type V = OrganizationRootStateV;

    open spec fn view(&self) -> OrganizationRootStateV {
        match self {
            OrganizationRootState::AwaitOrganization => OrganizationRootStateV::AwaitOrganization,
            OrganizationRootState::AwaitUsers { organization } => OrganizationRootStateV::AwaitUsers {
                organization: organization@,
            },
            OrganizationRootState::AwaitInvitations { organization, users } => OrganizationRootStateV::AwaitInvitations {
                organization: organization@,
                users: users.deep_view(),
            },
            OrganizationRootState::Finished { outcome: Ok(root) } => OrganizationRootStateV::Finished {
                outcome: Ok(root@),
            },
            OrganizationRootState::Finished { outcome: Err(error) } => OrganizationRootStateV::Finished {
                outcome: Err(error@),
            },
        }
    }
}

/// The storage flow behind `OrganizationRootStorageAction::Read`: three
/// dependent reads — the organization, its users, its invitations — composed
/// into one aggregate; any sub-read failure aborts the whole read.
pub struct OrganizationRootFlow {
    pub organization_id: String,
    pub state: OrganizationRootState,
}

impl View for OrganizationRootFlow {
    type V = OrganizationRootFlowV;

    open spec fn view(&self) -> OrganizationRootFlowV {
        OrganizationRootFlowV { organization_id: self.organization_id@, state: self.state@ }
    }
}

impl OrganizationRootFlow {
    /// Begin the flow: the identifier is judged before the store is asked.
    pub fn start(organization_id: String) -> (r: Self)
        ensures
            r@ == OrganizationRootFlowV::spec_start(
                organization_id@,
                object_id_accepted(organization_id@),
            ),
    {
        let id_ok = is_object_id(organization_id.as_str());
        let state = if id_ok {
            OrganizationRootState::AwaitOrganization
        } else {
            OrganizationRootState::Finished {
                outcome: Err(
                    Error::new(
                        ErrorKind::InvalidArgument,
                        str_new("failed to parse organization id as ObjectId"),
                    ),
                ),
            }
        };
        OrganizationRootFlow { organization_id, state }
    }

    /// Feed the flow what the store said to the organization read.
    pub fn on_organization(self, outcome: Result<Option<Organization>, String>) -> (r: Self)
        requires
            self@.state is AwaitOrganization,
        ensures
            r@ == self@.spec_on_organization(
                match &outcome {
                    Ok(found) => Ok(found.deep_view()),
                    Err(message) => Err(message@),
                },
            ),
    {
        let OrganizationRootFlow { organization_id, state: _ } = self;
        let state = match outcome {
            Ok(Some(organization)) => OrganizationRootState::AwaitUsers { organization },
            Ok(None) => OrganizationRootState::Finished {
                outcome: Err(
                    Error::new(
                        ErrorKind::InvalidArgument,
                        str_new("organization with id '").concat(organization_id.as_str()).concat(
                            "' not found",
                        ),
                    ),
                ),
            },
            Err(message) => OrganizationRootState::Finished {
                outcome: Err(
                    Error::new(
                        ErrorKind::InternalFailure,
                        str_new("failed to read organization from database: ").concat(
                            message.as_str(),
                        ),
                    ),
                ),
            },
        };
        OrganizationRootFlow { organization_id, state }
    }

    /// Feed the flow what the store said to the user read.
    pub fn on_users(self, outcome: Result<Vec<User>, String>) -> (r: Self)
        requires
            self@.state is AwaitUsers,
        ensures
            r@ == self@.spec_on_users(
                match &outcome {
                    Ok(users) => Ok(users.deep_view()),
                    Err(message) => Err(message@),
                },
            ),
    {
        let OrganizationRootFlow { organization_id, state } = self;
        let organization = match state {
            OrganizationRootState::AwaitUsers { organization } => organization,
            _ => unreached(),
        };
        let state = match outcome {
            Ok(users) => OrganizationRootState::AwaitInvitations { organization, users },
            Err(message) => OrganizationRootState::Finished {
                outcome: Err(
                    Error::new(
                        ErrorKind::InternalFailure,
                        str_new("failed to read users from database: ").concat(message.as_str()),
                    ),
                ),
            },
        };
        OrganizationRootFlow { organization_id, state }
    }

    /// Feed the flow what the store said to the invitation read.
    pub fn on_invitations(self, outcome: Result<Vec<Invitation>, String>) -> (r: Self)
        requires
            self@.state is AwaitInvitations,
        ensures
            r@ == self@.spec_on_invitations(
                match &outcome {
                    Ok(invitations) => Ok(invitations.deep_view()),
                    Err(message) => Err(message@),
                },
            ),
    {
        let OrganizationRootFlow { organization_id, state } = self;
        let (organization, users) = match state {
            OrganizationRootState::AwaitInvitations { organization, users } => (
                organization,
                users,
            ),
            _ => unreached(),
        };
        let state = match outcome {
            Ok(invitations) => OrganizationRootState::Finished {
                outcome: Ok(OrganizationRoot { organization, users, invitations }),
            },
            Err(message) => OrganizationRootState::Finished {
                outcome: Err(
                    Error::new(
                        ErrorKind::InternalFailure,
                        str_new("failed to read invitations from database: ").concat(
                            message.as_str(),
                        ),
                    ),
                ),
            },
        };
        OrganizationRootFlow { organization_id, state }
    }

    /// The reply owed to the logic layer, once the flow is over.
    pub fn into_outcome(self) -> (r: Result<OrganizationRoot, Error>)
        requires
            self@.state is Finished,
        ensures
            result_view(&r) == self@.state->Finished_outcome,
    {
        match self.state {
            OrganizationRootState::Finished { outcome } => outcome,
            _ => unreached(),
        }
    }
}

} // verus!
