use vstd::prelude::*;

use crate::elements::Invitation;
use crate::elements::InvitationV;
use crate::elements::Organization;
use crate::elements::OrganizationV;
use crate::elements::User;
use crate::elements::UserV;
use crate::error::Error;
use crate::error::ErrorKind;
use crate::error::ErrorV;
use crate::requests::ReplyV;
use crate::requests::StorageReply;
use crate::text::str_new;

verus! {

/// The country codes that the country collaborator recognizes.
pub uninterp spec fn country_code_accepted(s: Seq<char>) -> bool;

/// Relies on celes::Country::from_str: which codes are recognized depends on
/// the characters of the code alone.
#[verifier::external_body]
pub fn is_country_code_valid(country_code: &str) -> (r: bool)
    ensures
        r == country_code_accepted(country_code@),
{
    <celes::Country as core::str::FromStr>::from_str(country_code).is_ok()
}

/// The telephone numbers, written with an explicit `+` prefix, that the
/// telephone parser accepts.
pub uninterp spec fn telephone_accepted(s: Seq<char>) -> bool;

/// Relies on phonenumber::parse with no default region: whether a string is
/// accepted depends on its characters alone. The parser is only reached once
/// the leading `+` has been checked.
#[verifier::external_body]
fn parse_telephone(telephone: &str) -> (r: bool)
    requires
        telephone@.len() > 0,
        telephone@[0] == '+',
    ensures
        r == telephone_accepted(telephone@),
{
    phonenumber::parse(None, telephone).is_ok()
}

/// A valid telephone number starts with the `+` sign; specific international
/// prefixes such as `00` are not accepted in its place.
pub open spec fn spec_telephone_valid(s: Seq<char>) -> bool {
    s.len() > 0 && s[0] == '+' && telephone_accepted(s)
}

/// Whether the string is a telephone number in international notation.
pub fn is_telephone_valid(telephone: &str) -> (r: bool)
    ensures
        r == spec_telephone_valid(telephone@),
{
    if telephone.is_empty() {
        return false;
    }
    let first = telephone.get_char(0);
    if first != '+' {
        return false;
    }
    parse_telephone(telephone)
}

/// A telephone string without a leading `+` is never valid, whatever its
/// digits.
pub proof fn telephone_without_plus_is_invalid(s: Seq<char>)
    requires
        s.len() == 0 || s[0] != '+',
    ensures
        !spec_telephone_valid(s),
{
}

/// The error returned when a storage request could not be submitted or its
/// reply channel closed without a reply.
pub open spec fn spec_transport_error(r: ErrorV, reply_lost: bool) -> bool {
    r.kind == ErrorKind::InternalFailure && if reply_lost {
        r.message == "failed to receive response for a storage request"@
    } else {
        r.message == "failed to send storage request"@
    }
}

/// The error for a failed submission or a lost reply, as the storage reply
/// reports it.
pub(crate) fn transport_error(receive: bool) -> (r: Error)
    ensures
        r@.kind == ErrorKind::InternalFailure,
        spec_transport_error(r@, receive),
{
    if receive {
        Error::new(ErrorKind::InternalFailure, str_new("failed to receive response for a storage request"))
    } else {
        Error::new(ErrorKind::InternalFailure, str_new("failed to send storage request"))
    }
}

/// A user may act only while holding no membership: there is no stored record
/// for the user, or the stored record lists no organization.
pub open spec fn spec_user_unattached(found: Option<UserV>) -> bool {
    match found {
        Option::None => true,
        Option::Some(user) => user.organizations.len() == 0,
    }
}

/// What [`has_user_no_organization`] returns for each storage reply.
pub open spec fn spec_has_user_no_organization(
    reply: ReplyV<Option<UserV>>,
    r: Result<bool, ErrorV>,
) -> bool {
    match reply {
        ReplyV::SendFailed => r matches Err(e) && spec_transport_error(e, false),
        ReplyV::ReceiveFailed => r matches Err(e) && spec_transport_error(e, true),
        ReplyV::Replied(Err(e)) => r matches Err(e2) && e2 == e,
        ReplyV::Replied(Ok(found)) => r matches Ok(b) && b == spec_user_unattached(found),
    }
}

/// Whether the user found by a `FindUserById` round trip holds no membership,
/// so that it may create or join an organization.
pub fn has_user_no_organization(reply: StorageReply<Option<User>>) -> (r: Result<bool, Error>)
    ensures
        spec_has_user_no_organization(reply@, result_view(&r)),
{
    match reply {
        StorageReply::SendFailed => Err(transport_error(false)),
        StorageReply::ReceiveFailed => Err(transport_error(true)),
        StorageReply::Replied(Err(error)) => Err(error),
        StorageReply::Replied(Ok(found)) => match found {
            None => Ok(true),
            Some(user) => Ok(user.organizations.len() == 0),
        },
    }
}

/// The abstract value of a `Result`, both payload and error taken to their
/// views.
pub open spec fn result_view<T: DeepView>(r: &Result<T, Error>) -> Result<<T as DeepView>::V, ErrorV> {
    match r {
        Ok(value) => Ok(value.deep_view()),
        Err(error) => Err(error@),
    }
}

/// What the storage-backed presence checks — [`is_name_already_used`] and
/// [`is_telephone_being_used`] — return for each storage reply: true exactly
/// when a record was found.
pub open spec fn spec_presence_check(
    reply: ReplyV<Option<OrganizationV>>,
    r: Result<bool, ErrorV>,
) -> bool {
    match reply {
        ReplyV::SendFailed => r matches Err(e) && spec_transport_error(e, false),
        ReplyV::ReceiveFailed => r matches Err(e) && spec_transport_error(e, true),
        ReplyV::Replied(Err(e)) => r matches Err(e2) && e2 == e,
        ReplyV::Replied(Ok(found)) => r matches Ok(b) && b == (found is Some),
    }
}

/// Whether a `FindByName` round trip found an organization already holding
/// the name.
pub fn is_name_already_used(reply: StorageReply<Option<Organization>>) -> (r: Result<bool, Error>)
    ensures
        spec_presence_check(reply@, result_view(&r)),
{
    match reply {
        StorageReply::SendFailed => Err(transport_error(false)),
        StorageReply::ReceiveFailed => Err(transport_error(true)),
        StorageReply::Replied(Err(error)) => Err(error),
        StorageReply::Replied(Ok(found)) => Ok(found.is_some()),
    }
}

/// Whether a `FindByTelephone` round trip found an organization already
/// holding the telephone number.
pub fn is_telephone_being_used(reply: StorageReply<Option<Organization>>) -> (r: Result<
    bool,
    Error,
>)
    ensures
        spec_presence_check(reply@, result_view(&r)),
{
    match reply {
        StorageReply::SendFailed => Err(transport_error(false)),
        StorageReply::ReceiveFailed => Err(transport_error(true)),
        StorageReply::Replied(Err(error)) => Err(error),
        StorageReply::Replied(Ok(found)) => Ok(found.is_some()),
    }
}

/// What [`get_code_if_valid`] returns for each storage reply, judged at time
/// `now`.
pub open spec fn spec_get_code_if_valid(
    reply: ReplyV<Option<InvitationV>>,
    now: u64,
    r: Result<InvitationV, ErrorV>,
) -> bool {
    match reply {
        ReplyV::SendFailed => r matches Err(e) && spec_transport_error(e, false),
        ReplyV::ReceiveFailed => r matches Err(e) && spec_transport_error(e, true),
        ReplyV::Replied(Err(e)) => r matches Err(e2) && e2 == e,
        ReplyV::Replied(Ok(None)) => r matches Err(e) && e.kind == ErrorKind::InvitationNotFound
            && e.message == "invitation code not found"@,
        ReplyV::Replied(Ok(Some(invitation))) => if invitation.spec_expired_at(now) {
            r matches Err(e) && e.kind == ErrorKind::InvitationHasExpired && e.message
                == "invitation code has expired"@
        } else {
            r matches Ok(i) && i == invitation
        },
    }
}

/// The invitation found by a `FindByCode` round trip, if it exists and is not
/// expired at `now` (seconds since the Unix epoch).
pub fn get_code_if_valid(reply: StorageReply<Option<Invitation>>, now: u64) -> (r: Result<
    Invitation,
    Error,
>)
    ensures
        spec_get_code_if_valid(reply@, now, result_view(&r)),
{
    match reply {
        StorageReply::SendFailed => Err(transport_error(false)),
        StorageReply::ReceiveFailed => Err(transport_error(true)),
        StorageReply::Replied(Err(error)) => Err(error),
        StorageReply::Replied(Ok(found)) => match found {
            None => Err(
                Error::new(ErrorKind::InvitationNotFound, str_new("invitation code not found")),
            ),
            Some(invitation) => {
                if invitation.expired_at(now) {
                    Err(
                        Error::new(
                            ErrorKind::InvitationHasExpired,
                            str_new("invitation code has expired"),
                        ),
                    )
                } else {
                    Ok(invitation)
                }
            },
        },
    }
}

/// What [`get_organization_if_exists`] returns for each storage reply.
pub open spec fn spec_get_organization_if_exists(
    reply: ReplyV<Option<OrganizationV>>,
    r: Result<OrganizationV, ErrorV>,
) -> bool {
    match reply {
        ReplyV::SendFailed => r matches Err(e) && spec_transport_error(e, false),
        ReplyV::ReceiveFailed => r matches Err(e) && spec_transport_error(e, true),
        ReplyV::Replied(Err(e)) => r matches Err(e2) && e2 == e,
        ReplyV::Replied(Ok(None)) => r matches Err(e) && e.kind == ErrorKind::OrganizationNotFound
            && e.message == "organization not found"@,
        ReplyV::Replied(Ok(Some(organization))) => r matches Ok(o) && o == organization,
    }
}

/// The organization found by a `FindById` round trip, if it exists.
pub fn get_organization_if_exists(reply: StorageReply<Option<Organization>>) -> (r: Result<
    Organization,
    Error,
>)
    ensures
        spec_get_organization_if_exists(reply@, result_view(&r)),
{
    match reply {
        StorageReply::SendFailed => Err(transport_error(false)),
        StorageReply::ReceiveFailed => Err(transport_error(true)),
        StorageReply::Replied(Err(error)) => Err(error),
        StorageReply::Replied(Ok(found)) => match found {
            None => Err(
                Error::new(ErrorKind::OrganizationNotFound, str_new("organization not found")),
            ),
            Some(organization) => Ok(organization),
        },
    }
}

} // verus!
