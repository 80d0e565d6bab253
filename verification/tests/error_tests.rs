use authnotes::error::{
    map_error_to_client, ClientError, Error, NoteError, SessionError, UserError,
};

#[test]
fn every_user_error_maps_to_its_one_pair() {
    let cases = [
        (UserError::RegisterFail, 500, ClientError::SERVICE_ERROR),
        (UserError::LoginFail, 500, ClientError::SERVICE_ERROR),
        (UserError::EditFail, 500, ClientError::SERVICE_ERROR),
        (UserError::DeleteFail, 500, ClientError::SERVICE_ERROR),
        (UserError::RegisterFailNicknameCaptured, 409, ClientError::REGISTER_FAIL),
        (UserError::LoginFailInvalidParams, 403, ClientError::LOGIN_FAIL),
        (UserError::EditFailNicknameCaptured, 409, ClientError::INVALID_PARAMETERS),
        (UserError::EmptyFieldToEdit, 406, ClientError::INVALID_PARAMETERS),
        (UserError::UserDoesNotExists, 404, ClientError::INVALID_PARAMETERS),
        (UserError::AuthFail, 403, ClientError::NO_AUTHENTICATION),
    ];
    for (error, status, code) in cases {
        assert_eq!(error.client_status_and_error(), (status, code));
        assert_eq!(Error::User(error).client_status_and_error(), (status, code));
    }
}

#[test]
fn every_note_error_maps_to_its_one_pair() {
    let cases = [
        (NoteError::CreateFail, 500, ClientError::SERVICE_ERROR),
        (NoteError::ReceiveFail, 500, ClientError::SERVICE_ERROR),
        (NoteError::EditFail, 500, ClientError::SERVICE_ERROR),
        (NoteError::DeleteFail, 500, ClientError::SERVICE_ERROR),
        (NoteError::EditorCanNotEditNote, 403, ClientError::NO_RIGHTS),
        (NoteError::DeleterCanNotDeleteNote, 403, ClientError::NO_RIGHTS),
        (NoteError::NoteDoesNotExists, 404, ClientError::INVALID_PARAMETERS),
    ];
    for (error, status, code) in cases {
        assert_eq!(error.client_status_and_error(), (status, code));
        assert_eq!(Error::Notes(error).client_status_and_error(), (status, code));
    }
}

#[test]
fn every_session_error_maps_to_its_one_pair() {
    let cases = [
        (SessionError::CreateFail, 500, ClientError::SERVICE_ERROR),
        (SessionError::DeleteFail, 500, ClientError::SERVICE_ERROR),
        (SessionError::ValidityCheckFail, 500, ClientError::SERVICE_ERROR),
        (SessionError::SessionInvalid, 404, ClientError::INVALID_PARAMETERS),
        (SessionError::SessionDoesNotExists, 404, ClientError::INVALID_PARAMETERS),
    ];
    for (error, status, code) in cases {
        assert_eq!(error.client_status_and_error(), (status, code));
        assert_eq!(Error::Sessions(error).client_status_and_error(), (status, code));
    }
}

#[test]
fn client_codes_serialize_to_their_names() {
    assert_eq!(ClientError::REGISTER_FAIL.as_text(), "REGISTER_FAIL");
    assert_eq!(ClientError::LOGIN_FAIL.as_text(), "LOGIN_FAIL");
    assert_eq!(ClientError::NO_AUTHENTICATION.as_text(), "NO_AUTHENTICATION");
    assert_eq!(ClientError::NO_RIGHTS.as_text(), "NO_RIGHTS");
    assert_eq!(ClientError::INVALID_PARAMETERS.as_text(), "INVALID_PARAMETERS");
    assert_eq!(ClientError::SERVICE_ERROR.as_text(), "SERVICE_ERROR");
}

#[test]
fn the_mapper_rewrites_only_responses_that_carry_an_error() {
    assert_eq!(map_error_to_client(None), None);
    let error = Error::Notes(NoteError::DeleterCanNotDeleteNote);
    assert_eq!(map_error_to_client(Some(&error)), Some((403, ClientError::NO_RIGHTS)));
}
