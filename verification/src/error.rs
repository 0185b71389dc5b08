use vstd::prelude::*;

verus! {

/// Classification of every failure the organization backend can report.
#[derive(Debug, Copy, Clone, PartialEq, Eq, Structural)]
pub enum ErrorKind {
    InternalFailure,
    StorageFailure,
    InvalidArgument,
    InvalidCountry,
    InvalidTelephone,
    NameAlreadyTaken,
    TelephoneAlreadyInUse,
    UserCannotCreateOrganization,
    UserCannotJoinAnyOrganization,
    InvitationNotFound,
    InvitationHasExpired,
    OrganizationNotFound,
    ProcessReversion,
}

/// Abstract value of an [`Error`]: its kind and the characters of its message.
pub struct ErrorV {
    pub kind: ErrorKind,
    pub message: Seq<char>,
}

/// An error returned to the caller of any operation.
#[derive(Debug, Clone)]
pub struct Error {
    pub kind: ErrorKind,
    pub message: String,
}

impl View for Error {
    type V = ErrorV;

    open spec fn view(&self) -> ErrorV {
        ErrorV { kind: self.kind, message: self.message@ }
    }
}

impl Error {
    pub fn new(kind: ErrorKind, message: String) -> (r: Error)
        ensures
            r@ == (ErrorV { kind, message: message@ }),
    {
        Error { kind, message }
    }

    pub fn kind(&self) -> (r: ErrorKind)
        ensures
            r == self@.kind,
    {
        self.kind
    }
}

} // verus!
