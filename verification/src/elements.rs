use vstd::prelude::*;
use vstd::string::StringExecFns;

verus! {

/// Abstract value of an [`Organization`].
pub struct OrganizationV {
    pub id: Seq<char>,
    pub name: Seq<char>,
    pub country: Seq<char>,
    pub address: Seq<char>,
    pub telephone: Seq<char>,
    pub permissions: Seq<Seq<char>>,
}

/// An organization: its storage-assigned identifier, its unique name, the
/// country it resides in, its address and its unique telephone number.
#[derive(Debug)]
pub struct Organization {
    pub id: String,
    pub name: String,
    pub country: String,
    pub address: String,
    pub telephone: String,
    pub permissions: Vec<String>,
}

impl View for Organization {
    type V = OrganizationV;

    open spec fn view(&self) -> OrganizationV {
        OrganizationV {
            id: self.id@,
            name: self.name@,
            country: self.country@,
            address: self.address@,
            telephone: self.telephone@,
            permissions: self.permissions.deep_view(),
        }
    }
}

impl DeepView for Organization {
    type V = OrganizationV;

    open spec fn deep_view(&self) -> OrganizationV {
        self.view()
    }
}

/// Abstract value of a [`UserOrganization`].
pub struct UserOrganizationV {
    pub organization_id: Seq<char>,
    pub permissions: Seq<Seq<char>>,
}

/// A membership: the organization a user belongs to and the permissions the
/// user holds within it.
#[derive(Debug)]
pub struct UserOrganization {
    pub organization_id: String,
    pub permissions: Vec<String>,
}

impl View for UserOrganization {
    type V = UserOrganizationV;

    open spec fn view(&self) -> UserOrganizationV {
        UserOrganizationV {
            organization_id: self.organization_id@,
            permissions: self.permissions.deep_view(),
        }
    }
}

impl DeepView for UserOrganization {
    type V = UserOrganizationV;

    open spec fn deep_view(&self) -> UserOrganizationV {
        self.view()
    }
}

/// Abstract value of a [`User`].
pub struct UserV {
    pub id: Seq<char>,
    pub organizations: Seq<UserOrganizationV>,
}

/// A user: the externally verified subject identifier and the memberships the
/// user holds.
#[derive(Debug)]
pub struct User {
    pub id: String,
    pub organizations: Vec<UserOrganization>,
}

impl View for User {
    type V = UserV;

    open spec fn view(&self) -> UserV {
        UserV { id: self.id@, organizations: self.organizations.deep_view() }
    }
}

impl DeepView for User {
    type V = UserV;

    open spec fn deep_view(&self) -> UserV {
        self.view()
    }
}

/// The permissions a user may exercise before belonging to any organization.
pub open spec fn self_service_permissions() -> Seq<Seq<char>> {
    seq!["create:organization"@, "join:organization"@]
}

/// The transient user synthesized for a subject that has no stored record:
/// a single membership with an empty organization identifier carrying the
/// self-service permissions.
pub open spec fn default_user(id: Seq<char>) -> UserV {
    UserV {
        id,
        organizations: seq![
            UserOrganizationV { organization_id: ""@, permissions: self_service_permissions() },
        ],
    }
}

impl User {
    /// A user that has not been stored yet: it belongs to no organization and
    /// may only create or join one.
    pub fn new(user_id: String) -> (r: User)
        ensures
            r@ == default_user(user_id@),
    {
        let mut permissions: Vec<String> = Vec::new();
        permissions.push(String::from_str("create:organization"));
        permissions.push(String::from_str("join:organization"));
        let mut organizations: Vec<UserOrganization> = Vec::new();
        organizations.push(UserOrganization {
            organization_id: String::from_str(""),
            permissions,
        });
        let r = User { id: user_id, organizations };
        proof {
            assert(r.organizations.deep_view()[0].permissions =~= self_service_permissions());
            assert(r.organizations.deep_view() =~= default_user(r.id@).organizations);
        }
        r
    }
}

/// Abstract value of an [`Invitation`].
pub struct InvitationV {
    pub code: Seq<char>,
    pub organization_id: Seq<char>,
    pub permissions: Seq<Seq<char>>,
    pub created_at: u64,
    pub expires_after: u64,
}

impl InvitationV {
    /// An invitation is expired once `now` has passed the end of its
    /// lifetime, `created_at + expires_after`.
    pub open spec fn spec_expired_at(self, now: u64) -> bool {
        now > self.created_at + self.expires_after
    }
}

/// A time-limited, single-use code granting a permission set to whoever
/// redeems it for the organization it names.
#[derive(Debug)]
pub struct Invitation {
    pub code: String,
    pub organization_id: String,
    pub permissions: Vec<String>,
    /// Seconds since the Unix epoch.
    pub created_at: u64,
    /// Lifetime in seconds.
    pub expires_after: u64,
}

impl View for Invitation {
    type V = InvitationV;

    open spec fn view(&self) -> InvitationV {
        InvitationV {
            code: self.code@,
            organization_id: self.organization_id@,
            permissions: self.permissions.deep_view(),
            created_at: self.created_at,
            expires_after: self.expires_after,
        }
    }
}

impl DeepView for Invitation {
    type V = InvitationV;

    open spec fn deep_view(&self) -> InvitationV {
        self.view()
    }
}

/// Relies on std::time::SystemTime for the seconds of the system clock since
/// the Unix epoch; 0 if the clock reads before the epoch. Nothing can be
/// promised of the clock's value.
#[verifier::external_body]
pub fn unix_now_seconds() -> u64 {
    match std::time::SystemTime::now().duration_since(std::time::SystemTime::UNIX_EPOCH) {
        Ok(duration) => duration.as_secs(),
        Err(_) => 0,
    }
}

impl Invitation {
    /// Seconds since the Unix epoch at which the invitation was created.
    pub fn created_at(&self) -> (r: u64)
        ensures
            r == self@.created_at,
    {
        self.created_at
    }

    /// Whether the invitation is expired at `now`, in seconds since the Unix
    /// epoch.
    pub fn expired_at(&self, now: u64) -> (r: bool)
        ensures
            r == self@.spec_expired_at(now),
    {
        now > self.created_at && now - self.created_at > self.expires_after
    }

    /// Whether the invitation is expired at the time the system clock reads.
    pub fn expired(&self) -> (r: bool)
        ensures
            exists|now: u64| r == self@.spec_expired_at(now),
    {
        let now = unix_now_seconds();
        self.expired_at(now)
    }
}

/// Expiry is monotonic in time: once an invitation is expired, it stays
/// expired.
pub proof fn expiry_is_monotonic(invitation: InvitationV, earlier: u64, later: u64)
    requires
        earlier <= later,
        invitation.spec_expired_at(earlier),
    ensures
        invitation.spec_expired_at(later),
{
}

/// An invitation is not expired at any time up to the end of its lifetime;
/// in particular it is not expired at the moment it was created.
pub proof fn fresh_invitation_not_expired(invitation: InvitationV, now: u64)
    requires
        now <= invitation.created_at + invitation.expires_after,
    ensures
        !invitation.spec_expired_at(now),
{
}

/// Abstract value of an [`OrganizationRoot`].
pub struct OrganizationRootV {
    pub organization: OrganizationV,
    pub users: Seq<UserV>,
    pub invitations: Seq<InvitationV>,
}

/// The read-only aggregate of an organization, the users whose memberships
/// reference it and the invitations targeting it.
#[derive(Debug)]
pub struct OrganizationRoot {
    pub organization: Organization,
    pub users: Vec<User>,
    pub invitations: Vec<Invitation>,
}

impl View for OrganizationRoot {
    type V = OrganizationRootV;

    open spec fn view(&self) -> OrganizationRootV {
        OrganizationRootV {
            organization: self.organization@,
            users: self.users.deep_view(),
            invitations: self.invitations.deep_view(),
        }
    }
}

impl DeepView for OrganizationRoot {
    type V = OrganizationRootV;

    open spec fn deep_view(&self) -> OrganizationRootV {
        self.view()
    }
}

} // verus!
