//! The flat error taxonomy of the service.

use vstd::prelude::*;

verus! {

/// Every way an operation of the service can fail.
#[derive(Debug, Clone, Copy, PartialEq, Eq, Structural)]
pub enum EphemerideError {
    Unauthorized,
    DatabaseError,
    InternalServerError,
    UserNotFound,
    InviteNotFound,
    SessionNotFound,
    CategoryNotFound,
    TagNotFound,
    EntryNotFound,
    EmailAlreadyInUse,
    InvalidPassword,
    InviteUsed,
    BadRequest,
    EntryAlreadyExistsForDate,
}

/// The stable, human-readable message of each error kind.
pub open spec fn message_of(error: EphemerideError) -> Seq<char> {
    match error {
        EphemerideError::Unauthorized => "Unauthorized"@,
        EphemerideError::UserNotFound => "User not found"@,
        EphemerideError::InviteNotFound => "Invite not found"@,
        EphemerideError::SessionNotFound => "Session not found"@,
        EphemerideError::CategoryNotFound => "Category not found"@,
        EphemerideError::TagNotFound => "Tag not found"@,
        EphemerideError::EntryNotFound => "Entry not found"@,
        EphemerideError::EmailAlreadyInUse => "Email already in use"@,
        EphemerideError::InvalidPassword => "Invalid password"@,
        EphemerideError::InviteUsed => "Invite already used"@,
        EphemerideError::BadRequest => "Bad request"@,
        EphemerideError::EntryAlreadyExistsForDate => "An entry already exists for the given date"@,
        EphemerideError::DatabaseError => "An error occurred"@,
        EphemerideError::InternalServerError => "An error occurred"@,
    }
}

/// The HTTP status that the boundary layer answers with for each error kind.
pub open spec fn status_of(error: EphemerideError) -> int {
    match error {
        EphemerideError::Unauthorized => 401,
        EphemerideError::InvalidPassword => 401,
        EphemerideError::UserNotFound => 404,
        EphemerideError::InviteNotFound => 404,
        EphemerideError::SessionNotFound => 404,
        EphemerideError::CategoryNotFound => 404,
        EphemerideError::TagNotFound => 404,
        EphemerideError::EntryNotFound => 404,
        EphemerideError::EmailAlreadyInUse => 409,
        EphemerideError::InviteUsed => 409,
        EphemerideError::EntryAlreadyExistsForDate => 409,
        EphemerideError::BadRequest => 400,
        EphemerideError::DatabaseError => 500,
        EphemerideError::InternalServerError => 500,
    }
}

/// The body of an error answer: the kind and its message.
pub struct ErrorBody {
    pub code: EphemerideError,
    pub message: String,
}

/// The message of an error kind.
pub fn error_message(error: EphemerideError) -> (message: String)
    ensures
        message@ == message_of(error),
{
    let text: &str = match error {
        EphemerideError::Unauthorized => "Unauthorized",
        EphemerideError::UserNotFound => "User not found",
        EphemerideError::InviteNotFound => "Invite not found",
        EphemerideError::SessionNotFound => "Session not found",
        EphemerideError::CategoryNotFound => "Category not found",
        EphemerideError::TagNotFound => "Tag not found",
        EphemerideError::EntryNotFound => "Entry not found",
        EphemerideError::EmailAlreadyInUse => "Email already in use",
        EphemerideError::InvalidPassword => "Invalid password",
        EphemerideError::InviteUsed => "Invite already used",
        EphemerideError::BadRequest => "Bad request",
        EphemerideError::EntryAlreadyExistsForDate => "An entry already exists for the given date",
        _ => "An error occurred",
    };
    text.to_owned()
}

/// The HTTP status of an error kind.
pub fn status_code(error: EphemerideError) -> (status: u16)
    ensures
        status == status_of(error),
{
    match error {
        EphemerideError::Unauthorized => 401,
        EphemerideError::UserNotFound => 404,
        EphemerideError::InviteNotFound => 404,
        EphemerideError::SessionNotFound => 404,
        EphemerideError::CategoryNotFound => 404,
        EphemerideError::TagNotFound => 404,
        EphemerideError::EntryNotFound => 404,
        EphemerideError::EmailAlreadyInUse => 409,
        EphemerideError::InvalidPassword => 401,
        EphemerideError::InviteUsed => 409,
        EphemerideError::BadRequest => 400,
        EphemerideError::EntryAlreadyExistsForDate => 409,
        _ => 500,
    }
}

/// The body of the answer for an error kind.
pub fn error_body(error: EphemerideError) -> (body: ErrorBody)
    ensures
        body.code == error,
        body.message@ == message_of(error),
{
    ErrorBody { code: error, message: error_message(error) }
}

} // verus!
