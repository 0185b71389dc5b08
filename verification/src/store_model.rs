use vstd::prelude::*;

use crate::create_saga::CreateSagaV;
use crate::create_saga::CreateStateV;
use crate::elements::InvitationV;
use crate::elements::OrganizationV;
use crate::elements::UserV;
use crate::error::ErrorKind;
use crate::requests::ReplyV;
use crate::validation::country_code_accepted;
use crate::validation::spec_telephone_valid;
use crate::validation::spec_user_unattached;

verus! {

/// An abstract document store: the canonical organizations, users and
/// invitations, in insertion order. It gives the storage collaborator's
/// reads and writes their meaning, so that laws about whole operations —
/// a second create against a committed name, a compensated create — can be
/// stated and proved against it.
pub struct StoreModel {
    pub organizations: Seq<OrganizationV>,
    pub users: Seq<UserV>,
    pub invitations: Seq<InvitationV>,
}

/// The first organization in `s` carrying the name, if any.
pub open spec fn find_organization_by_name(
    s: Seq<OrganizationV>,
    name: Seq<char>,
) -> Option<OrganizationV>
    decreases s.len(),
{
    if s.len() == 0 {
        None
    } else if s[0].name == name {
        Some(s[0])
    } else {
        find_organization_by_name(s.drop_first(), name)
    }
}

/// The first organization in `s` carrying the identifier, if any.
pub open spec fn find_organization_by_id(
    s: Seq<OrganizationV>,
    id: Seq<char>,
) -> Option<OrganizationV>
    decreases s.len(),
{
    if s.len() == 0 {
        None
    } else if s[0].id == id {
        Some(s[0])
    } else {
        find_organization_by_id(s.drop_first(), id)
    }
}

/// The first user in `s` carrying the identifier, if any.
pub open spec fn find_user_by_id(s: Seq<UserV>, id: Seq<char>) -> Option<UserV>
    decreases s.len(),
{
    if s.len() == 0 {
        None
    } else if s[0].id == id {
        Some(s[0])
    } else {
        find_user_by_id(s.drop_first(), id)
    }
}

impl StoreModel {
    /// The store after an organization insert commits.
    pub open spec fn insert_organization(self, organization: OrganizationV) -> StoreModel {
        StoreModel { organizations: self.organizations.push(organization), ..self }
    }

    /// The store after a delete of an organization by identifier.
    pub open spec fn delete_organization(self, id: Seq<char>) -> StoreModel {
        StoreModel {
            organizations: self.organizations.filter(|o: OrganizationV| o.id != id),
            ..self
        }
    }

    /// What a `FindByName` round trip replies over this store.
    pub open spec fn find_by_name_reply(self, name: Seq<char>) -> ReplyV<Option<OrganizationV>> {
        ReplyV::Replied(Ok(find_organization_by_name(self.organizations, name)))
    }

    /// What a `FindById` round trip replies over this store.
    pub open spec fn find_by_id_reply(self, id: Seq<char>) -> ReplyV<Option<OrganizationV>> {
        ReplyV::Replied(Ok(find_organization_by_id(self.organizations, id)))
    }

    /// What a `FindUserById` round trip replies over this store.
    pub open spec fn find_user_reply(self, id: Seq<char>) -> ReplyV<Option<UserV>> {
        ReplyV::Replied(Ok(find_user_by_id(self.users, id)))
    }
}

/// An organization whose insert has committed is found by its name.
pub proof fn committed_organization_is_found(s: Seq<OrganizationV>, organization: OrganizationV)
    ensures
        find_organization_by_name(s.push(organization), organization.name) is Some,
    decreases s.len(),
{
    if s.len() == 0 {
        assert(s.push(organization)[0] == organization);
    } else if s[0].name == organization.name {
    } else {
        assert(s.push(organization).drop_first() =~= s.drop_first().push(organization));
        committed_organization_is_found(s.drop_first(), organization);
    }
}

/// A lookup by an identifier that no stored organization carries finds
/// nothing.
pub proof fn find_by_id_none_when_absent(s: Seq<OrganizationV>, id: Seq<char>)
    requires
        forall|i: int| 0 <= i < s.len() ==> (#[trigger] s[i].id) != id,
    ensures
        find_organization_by_id(s, id) is None,
    decreases s.len(),
{
    if s.len() > 0 {
        assert(s[0].id != id);
        find_by_id_none_when_absent(s.drop_first(), id);
    }
}

/// Once the compensating delete of an organization has run against the
/// store, the organization is no longer retrievable by its identifier.
pub proof fn deleted_organization_is_gone(m: StoreModel, id: Seq<char>)
    ensures
        find_organization_by_id(m.delete_organization(id).organizations, id) is None,
{
    let remaining = m.delete_organization(id).organizations;
    assert forall|i: int| 0 <= i < remaining.len() implies (#[trigger] remaining[i].id) != id by {
        Seq::<OrganizationV>::lemma_filter_pred(
            m.organizations,
            |o: OrganizationV| o.id != id,
            i,
        );
    }
    find_by_id_none_when_absent(remaining, id);
}

/// Once a first create has committed its organization, a second
/// create-organization saga for the same name, told what the store now finds
/// under that name, finishes with `NameAlreadyTaken`.
pub proof fn second_create_sees_name_taken(
    m: StoreModel,
    committed: OrganizationV,
    saga: CreateSagaV,
)
    requires
        saga.state is CheckName,
        saga.name == committed.name,
    ensures
        ({
            let store = m.insert_organization(committed);
            let done = saga.spec_on_name_checked(store.find_by_name_reply(saga.name));
            done.state matches CreateStateV::Finished { outcome: Err(e) } && e.kind
                == ErrorKind::NameAlreadyTaken
        }),
{
    committed_organization_is_found(m.organizations, committed);
}

/// The whole pipeline of the second create, from its very start: for a user
/// holding no membership, with a valid country code and telephone, a
/// create-organization saga run against a store into which an organization
/// with the same name has committed passes the user check, meets the name
/// check, and finishes with `NameAlreadyTaken`.
pub proof fn create_against_store_sees_name_taken(
    m: StoreModel,
    committed: OrganizationV,
    user_id: Seq<char>,
    name: Seq<char>,
    country: Seq<char>,
    address: Seq<char>,
    telephone: Seq<char>,
)
    requires
        country_code_accepted(country),
        spec_telephone_valid(telephone),
        name == committed.name,
        spec_user_unattached(find_user_by_id(m.users, user_id)),
    ensures
        ({
            let store = m.insert_organization(committed);
            let started = CreateSagaV::spec_start(
                user_id,
                name,
                country,
                address,
                telephone,
                country_code_accepted(country),
                spec_telephone_valid(telephone),
            );
            let checked = started.spec_on_user_checked(store.find_user_reply(user_id));
            let done = checked.spec_on_name_checked(store.find_by_name_reply(name));
            done.state matches CreateStateV::Finished { outcome: Err(e) } && e.kind
                == ErrorKind::NameAlreadyTaken
        }),
{
    committed_organization_is_found(m.organizations, committed);
}

/// The full rollback law over the store: an organization is created, the
/// membership step fails, the saga demands compensation, and once the
/// compensating delete has run, the organization is not retrievable by its
/// identifier and the saga finishes with the membership step's error.
pub proof fn rollback_leaves_no_organization(
    m: StoreModel,
    saga: CreateSagaV,
    organization: OrganizationV,
    membership_reply: ReplyV<UserV>,
    delete_reply: ReplyV<()>,
)
    requires
        saga.state == (CreateStateV::AttachMembership { organization }),
        !(membership_reply matches ReplyV::Replied(Ok(_))),
    ensures
        ({
            let inserted = m.insert_organization(organization);
            let reverted = inserted.delete_organization(organization.id);
            let compensating = saga.spec_on_membership_attached(membership_reply);
            let done = compensating.spec_on_compensated(delete_reply);
            &&& find_organization_by_id(reverted.organizations, organization.id) is None
            &&& done.state matches CreateStateV::Finished { outcome: Err(e) } && match membership_reply {
                ReplyV::Replied(Err(e0)) => e == e0,
                ReplyV::SendFailed => e.kind == ErrorKind::InternalFailure,
                ReplyV::ReceiveFailed => e.kind == ErrorKind::InternalFailure,
                ReplyV::Replied(Ok(_)) => false,
            }
        }),
{
    deleted_organization_is_gone(m.insert_organization(organization), organization.id);
}

} // verus!
