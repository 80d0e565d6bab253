use authnotes::error::{Error, SessionError};
use authnotes::sessions::SessionsService;

const NOW: usize = 1_800_000_000;
const DAY: usize = 86_400;

#[test]
fn create_gives_slot_zero_and_computed_expiry() {
    let mut sessions = SessionsService::new();
    let session = sessions.create_or_update_session(7, 2, NOW).unwrap();
    assert_eq!(session.id, 0);
    assert_eq!(session.user_id, 7);
    assert_eq!(session.expires_at, NOW + 2 * DAY);
}

#[test]
fn renewal_preserves_id_and_user_and_changes_only_expiry() {
    let mut sessions = SessionsService::new();
    let first = sessions.create_or_update_session(7, 2, NOW).unwrap();
    let renewed = sessions.create_or_update_session(7, 5, NOW + 100).unwrap();
    assert_eq!(renewed.id, first.id);
    assert_eq!(renewed.user_id, first.user_id);
    assert_eq!(renewed.expires_at, NOW + 100 + 5 * DAY);
    assert_ne!(renewed.expires_at, first.expires_at);
    assert_eq!(sessions.len(), 1);
}

#[test]
fn at_most_one_session_per_user_after_many_renewals() {
    let mut sessions = SessionsService::new();
    for round in 0..5usize {
        sessions.create_or_update_session(3, 1, NOW + round).unwrap();
    }
    assert_eq!(sessions.len(), 1);
    let other = sessions.create_or_update_session(4, 1, NOW).unwrap();
    assert_eq!(other.id, 1);
    assert_eq!(sessions.len(), 2);
}

#[test]
fn validity_succeeds_only_on_exact_expiry_match() {
    let mut sessions = SessionsService::new();
    let session = sessions.create_or_update_session(9, 1, NOW).unwrap();
    assert_eq!(sessions.session_validity(session.id, session.expires_at), Ok(9));
    assert_eq!(
        sessions.session_validity(session.id, session.expires_at + 1),
        Err(Error::Sessions(SessionError::SessionInvalid))
    );
}

#[test]
fn renewal_invalidates_the_previous_claim_even_before_it_expires() {
    let mut sessions = SessionsService::new();
    let first = sessions.create_or_update_session(9, 1, NOW).unwrap();
    let renewed = sessions.create_or_update_session(9, 1, NOW + 50).unwrap();
    // The first token's claim is far from expired, yet no longer matches.
    assert!(first.expires_at > NOW);
    assert_eq!(
        sessions.session_validity(first.id, first.expires_at),
        Err(Error::Sessions(SessionError::SessionInvalid))
    );
    assert_eq!(sessions.session_validity(renewed.id, renewed.expires_at), Ok(9));
}

#[test]
fn validity_on_missing_session_is_not_found() {
    let sessions = SessionsService::new();
    assert_eq!(
        sessions.session_validity(0, NOW),
        Err(Error::Sessions(SessionError::SessionDoesNotExists))
    );
}

#[test]
fn deleting_a_nonexistent_session_twice_succeeds_both_times() {
    let mut sessions = SessionsService::new();
    assert_eq!(sessions.delete_session(12), Ok(()));
    assert_eq!(sessions.delete_session(12), Ok(()));
    let session = sessions.create_or_update_session(12, 1, NOW).unwrap();
    assert_eq!(sessions.delete_session(12), Ok(()));
    assert_eq!(sessions.delete_session(12), Ok(()));
    assert_eq!(
        sessions.session_validity(session.id, session.expires_at),
        Err(Error::Sessions(SessionError::SessionDoesNotExists))
    );
}
