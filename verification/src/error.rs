//! Error taxonomy and the client-safe mapping.
//!
//! Every internal operation fails with a typed error. The mapper at the
//! edge turns an internal error into exactly one pair of HTTP status and
//! opaque client code, so internal detail never reaches a client.

use vstd::prelude::*;

verus! {

/// Internal error of any subsystem.
#[derive(Clone, Copy, Debug, PartialEq, Eq, Structural)]
pub enum Error {
    User(UserError),
    Notes(NoteError),
    Sessions(SessionError),
}

/// Failures of the user service.
#[derive(Clone, Copy, Debug, PartialEq, Eq, Structural)]
pub enum UserError {
    RegisterFail,
    RegisterFailNicknameCaptured,
    LoginFail,
    LoginFailInvalidParams,
    AuthFail,
    EditFail,
    EditFailNicknameCaptured,
    EmptyFieldToEdit,
    DeleteFail,
    UserDoesNotExists,
}

/// Failures of the note service.
#[derive(Clone, Copy, Debug, PartialEq, Eq, Structural)]
pub enum NoteError {
    CreateFail,
    ReceiveFail,
    EditFail,
    EditorCanNotEditNote,
    DeleteFail,
    DeleterCanNotDeleteNote,
    NoteDoesNotExists,
}

/// Failures of the session service.
#[derive(Clone, Copy, Debug, PartialEq, Eq, Structural)]
pub enum SessionError {
    CreateFail,
    DeleteFail,
    ValidityCheckFail,
    SessionInvalid,
    SessionDoesNotExists,
}

/// The closed set of opaque codes a client may see.
#[allow(non_camel_case_types)]
#[derive(Clone, Copy, Debug, PartialEq, Eq, Structural)]
pub enum ClientError {
    REGISTER_FAIL,
    LOGIN_FAIL,
    NO_AUTHENTICATION,
    NO_RIGHTS,
    INVALID_PARAMETERS,
    SERVICE_ERROR,
}

/// The one status/code pair assigned to each user error.
pub open spec fn spec_user_status_and_error(e: UserError) -> (u16, ClientError) {
    match e {
        UserError::RegisterFail => (500, ClientError::SERVICE_ERROR),
        UserError::LoginFail => (500, ClientError::SERVICE_ERROR),
        UserError::EditFail => (500, ClientError::SERVICE_ERROR),
        UserError::DeleteFail => (500, ClientError::SERVICE_ERROR),
        UserError::RegisterFailNicknameCaptured => (409, ClientError::REGISTER_FAIL),
        UserError::LoginFailInvalidParams => (403, ClientError::LOGIN_FAIL),
        UserError::EditFailNicknameCaptured => (409, ClientError::INVALID_PARAMETERS),
        UserError::EmptyFieldToEdit => (406, ClientError::INVALID_PARAMETERS),
        UserError::UserDoesNotExists => (404, ClientError::INVALID_PARAMETERS),
        UserError::AuthFail => (403, ClientError::NO_AUTHENTICATION),
    }
}

/// The one status/code pair assigned to each note error.
pub open spec fn spec_note_status_and_error(e: NoteError) -> (u16, ClientError) {
    match e {
        NoteError::CreateFail => (500, ClientError::SERVICE_ERROR),
        NoteError::ReceiveFail => (500, ClientError::SERVICE_ERROR),
        NoteError::EditFail => (500, ClientError::SERVICE_ERROR),
        NoteError::DeleteFail => (500, ClientError::SERVICE_ERROR),
        NoteError::EditorCanNotEditNote => (403, ClientError::NO_RIGHTS),
        NoteError::DeleterCanNotDeleteNote => (403, ClientError::NO_RIGHTS),
        NoteError::NoteDoesNotExists => (404, ClientError::INVALID_PARAMETERS),
    }
}

/// The one status/code pair assigned to each session error.
pub open spec fn spec_session_status_and_error(e: SessionError) -> (u16, ClientError) {
    match e {
        SessionError::CreateFail => (500, ClientError::SERVICE_ERROR),
        SessionError::DeleteFail => (500, ClientError::SERVICE_ERROR),
        SessionError::ValidityCheckFail => (500, ClientError::SERVICE_ERROR),
        SessionError::SessionInvalid => (404, ClientError::INVALID_PARAMETERS),
        SessionError::SessionDoesNotExists => (404, ClientError::INVALID_PARAMETERS),
    }
}

/// The pair assigned to an error of any subsystem.
pub open spec fn spec_status_and_error(e: Error) -> (u16, ClientError) {
    match e {
        Error::User(inner) => spec_user_status_and_error(inner),
        Error::Notes(inner) => spec_note_status_and_error(inner),
        Error::Sessions(inner) => spec_session_status_and_error(inner),
    }
}

impl UserError {
    /// HTTP status and client code for this error.
    pub fn client_status_and_error(&self) -> (r: (u16, ClientError))
        ensures
            r == spec_user_status_and_error(*self),
    {
        match self {
            UserError::RegisterFail => (500, ClientError::SERVICE_ERROR),
            UserError::LoginFail => (500, ClientError::SERVICE_ERROR),
            UserError::EditFail => (500, ClientError::SERVICE_ERROR),
            UserError::DeleteFail => (500, ClientError::SERVICE_ERROR),
            UserError::RegisterFailNicknameCaptured => (409, ClientError::REGISTER_FAIL),
            UserError::LoginFailInvalidParams => (403, ClientError::LOGIN_FAIL),
            UserError::EditFailNicknameCaptured => (409, ClientError::INVALID_PARAMETERS),
            UserError::EmptyFieldToEdit => (406, ClientError::INVALID_PARAMETERS),
            UserError::UserDoesNotExists => (404, ClientError::INVALID_PARAMETERS),
            UserError::AuthFail => (403, ClientError::NO_AUTHENTICATION),
        }
    }
}

impl NoteError {
    /// HTTP status and client code for this error.
    pub fn client_status_and_error(&self) -> (r: (u16, ClientError))
        ensures
            r == spec_note_status_and_error(*self),
    {
        match self {
            NoteError::CreateFail => (500, ClientError::SERVICE_ERROR),
            NoteError::ReceiveFail => (500, ClientError::SERVICE_ERROR),
            NoteError::EditFail => (500, ClientError::SERVICE_ERROR),
            NoteError::DeleteFail => (500, ClientError::SERVICE_ERROR),
            NoteError::EditorCanNotEditNote => (403, ClientError::NO_RIGHTS),
            NoteError::DeleterCanNotDeleteNote => (403, ClientError::NO_RIGHTS),
            NoteError::NoteDoesNotExists => (404, ClientError::INVALID_PARAMETERS),
        }
    }
}

impl SessionError {
    /// HTTP status and client code for this error.
    pub fn client_status_and_error(&self) -> (r: (u16, ClientError))
        ensures
            r == spec_session_status_and_error(*self),
    {
        match self {
            SessionError::CreateFail => (500, ClientError::SERVICE_ERROR),
            SessionError::DeleteFail => (500, ClientError::SERVICE_ERROR),
            SessionError::ValidityCheckFail => (500, ClientError::SERVICE_ERROR),
            SessionError::SessionInvalid => (404, ClientError::INVALID_PARAMETERS),
            SessionError::SessionDoesNotExists => (404, ClientError::INVALID_PARAMETERS),
        }
    }
}

impl Error {
    /// HTTP status and client code for this error, whatever its subsystem.
    pub fn client_status_and_error(&self) -> (r: (u16, ClientError))
        ensures
            r == spec_status_and_error(*self),
    {
        match self {
            Error::User(inner) => inner.client_status_and_error(),
            Error::Notes(inner) => inner.client_status_and_error(),
            Error::Sessions(inner) => inner.client_status_and_error(),
        }
    }
}

impl ClientError {
    /// The text of this code, as it is serialized for the client.
    pub open spec fn spec_text(self) -> Seq<char> {
        match self {
            ClientError::REGISTER_FAIL => "REGISTER_FAIL"@,
            ClientError::LOGIN_FAIL => "LOGIN_FAIL"@,
            ClientError::NO_AUTHENTICATION => "NO_AUTHENTICATION"@,
            ClientError::NO_RIGHTS => "NO_RIGHTS"@,
            ClientError::INVALID_PARAMETERS => "INVALID_PARAMETERS"@,
            ClientError::SERVICE_ERROR => "SERVICE_ERROR"@,
        }
    }

    /// Serialized form of this code.
    pub fn as_text(&self) -> (r: &'static str)
        ensures
            r@ == self.spec_text(),
    {
        match self {
            ClientError::REGISTER_FAIL => "REGISTER_FAIL",
            ClientError::LOGIN_FAIL => "LOGIN_FAIL",
            ClientError::NO_AUTHENTICATION => "NO_AUTHENTICATION",
            ClientError::NO_RIGHTS => "NO_RIGHTS",
            ClientError::INVALID_PARAMETERS => "INVALID_PARAMETERS",
            ClientError::SERVICE_ERROR => "SERVICE_ERROR",
        }
    }
}

/// The mapper run on a finished response: an attached internal error
/// becomes its status/code pair; a response without one passes unchanged.
pub fn map_error_to_client(error: Option<&Error>) -> (r: Option<(u16, ClientError)>)
    ensures
        match error {
            Some(e) => r == Some(spec_status_and_error(*e)),
            None => r is None,
        },
{
    match error {
        Some(e) => Some(e.client_status_and_error()),
        None => None,
    }
}

} // verus!
