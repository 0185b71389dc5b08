use vstd::prelude::*;

use crate::elements::default_user;
use crate::elements::OrganizationRoot;
use crate::elements::OrganizationRootV;
use crate::elements::User;
use crate::elements::UserV;
use crate::error::Error;
use crate::error::ErrorKind;
use crate::error::ErrorV;
use crate::requests::ReplyV;
use crate::requests::StorageReply;
use crate::text::str_new;
use crate::validation::result_view;

verus! {

/// The error the read executors report when a storage round trip broke down
/// or storage itself failed.
pub open spec fn spec_read_failure(e: ErrorV, submitted: bool) -> bool {
    e.kind == ErrorKind::InternalFailure && if submitted {
        e.message == "failed to receive storage result"@
    } else {
        e.message == "failed to send storage request"@
    }
}

/// What [`read_user`] returns for each storage reply: the stored user, or
/// the transient default user when none is stored.
pub open spec fn spec_read_user(
    user_id: Seq<char>,
    reply: ReplyV<Option<UserV>>,
    r: Result<UserV, ErrorV>,
) -> bool {
    match reply {
        ReplyV::SendFailed => r matches Err(e) && spec_read_failure(e, false),
        ReplyV::ReceiveFailed => r matches Err(e) && spec_read_failure(e, true),
        ReplyV::Replied(Err(_)) => r matches Err(e) && spec_read_failure(e, true),
        ReplyV::Replied(Ok(Some(user))) => r matches Ok(u) && u == user,
        ReplyV::Replied(Ok(None)) => r matches Ok(u) && u == default_user(user_id),
    }
}

/// The one reply a user `Read` operation owes its caller: an absent account
/// is not a failure, it yields the transient default user.
pub fn read_user(user_id: String, reply: StorageReply<Option<User>>) -> (r: Result<User, Error>)
    ensures
        spec_read_user(user_id@, reply@, result_view(&r)),
{
    match reply {
        StorageReply::SendFailed => Err(
            Error::new(ErrorKind::InternalFailure, str_new("failed to send storage request")),
        ),
        StorageReply::ReceiveFailed => Err(
            Error::new(ErrorKind::InternalFailure, str_new("failed to receive storage result")),
        ),
        StorageReply::Replied(Err(_)) => Err(
            Error::new(ErrorKind::InternalFailure, str_new("failed to receive storage result")),
        ),
        StorageReply::Replied(Ok(Some(user))) => Ok(user),
        StorageReply::Replied(Ok(None)) => Ok(User::new(user_id)),
    }
}

/// What [`read_organization_root`] returns for each storage reply: the
/// storage verdict, relayed verbatim.
pub open spec fn spec_read_organization_root(
    reply: ReplyV<OrganizationRootV>,
    r: Result<OrganizationRootV, ErrorV>,
) -> bool {
    match reply {
        ReplyV::SendFailed => r matches Err(e) && spec_read_failure(e, false),
        ReplyV::ReceiveFailed => r matches Err(e) && spec_read_failure(e, true),
        ReplyV::Replied(result) => r == result,
    }
}

/// The one reply an organization-root `Read` operation owes its caller:
/// whatever storage said, success or failure, with no further business rule.
pub fn read_organization_root(reply: StorageReply<OrganizationRoot>) -> (r: Result<
    OrganizationRoot,
    Error,
>)
    ensures
        spec_read_organization_root(reply@, result_view(&r)),
{
    match reply {
        StorageReply::SendFailed => Err(
            Error::new(ErrorKind::InternalFailure, str_new("failed to send storage request")),
        ),
        StorageReply::ReceiveFailed => Err(
            Error::new(ErrorKind::InternalFailure, str_new("failed to receive storage result")),
        ),
        StorageReply::Replied(result) => result,
    }
}

} // verus!
