//! Request-authentication pipeline decisions.
//!
//! The resolve stage turns a cookie value into an authentication context
//! or a typed failure, without rejecting the request itself; a require
//! stage downstream short-circuits on the failure. The issue stage runs
//! on the response of a login or registration route: it creates or
//! renews the user's session and signs a fresh token for the cookie.

use vstd::prelude::*;

use crate::context::AuthTokenContext;
use crate::error::{Error, SessionError, UserError};
use crate::sessions::{
    has_user_session, user_session_index, validity_outcome, Session, SessionsService,
};
use crate::store::{occupied, record_at};
use crate::token::{jwt_claims_of, jwt_token_of, JWTController, TokenClaims};

verus! {

/// Resolves already-decoded claims against the clock and the session
/// table: a claim past `now`, a missing session, or a stored expiry
/// different from the claim is an authentication failure; an exact
/// match yields the context of the session's user.
pub fn resolve_from_claims(sessions: &SessionsService, claims: &TokenClaims, now: usize) -> (r:
    Result<AuthTokenContext, Error>)
    ensures
        claims.exp < now ==> r == Err::<AuthTokenContext, Error>(Error::User(UserError::AuthFail)),
        claims.exp >= now ==> match validity_outcome(sessions@, claims.sub, claims.exp) {
            Ok(user_id) => r matches Ok(ctx) && ctx.spec_user_id() == user_id,
            Err(_) => r == Err::<AuthTokenContext, Error>(Error::User(UserError::AuthFail)),
        },
{
    if claims.exp < now {
        return Err(Error::User(UserError::AuthFail));
    }
    match sessions.session_validity(claims.sub, claims.exp) {
        Ok(user_id) => Ok(AuthTokenContext::new(user_id)),
        Err(_) => Err(Error::User(UserError::AuthFail)),
    }
}

/// Resolve stage. The cookie value, already pulled from the request, is
/// decoded by the codec; the decoded expiry claim is checked against
/// the clock and then, for exact equality, against the stored session.
/// A context comes back only when a live, unexpired session whose
/// stored expiry equals the token's claim backs the token; every
/// failure is handed back typed, for the require stage to enforce.
pub fn resolve_token_context(
    jwt: &JWTController,
    sessions: &SessionsService,
    auth_token: Option<&String>,
    now: usize,
) -> (r: Result<AuthTokenContext, Error>)
    ensures
        auth_token is None ==> r == Err::<AuthTokenContext, Error>(
            Error::User(UserError::AuthFail),
        ),
        r matches Ok(ctx) ==> ({
            &&& auth_token matches Some(token)
            &&& jwt_claims_of(token@) matches Some(claims)
            &&& claims.1 >= now
            &&& occupied(sessions@, claims.0 as int)
            &&& record_at(sessions@, claims.0 as int).expires_at == claims.1
            &&& ctx.spec_user_id() == record_at(sessions@, claims.0 as int).user_id
        }),
        r matches Err(e) ==> e == Error::User(UserError::AuthFail) || e == Error::Sessions(
            SessionError::ValidityCheckFail,
        ),
{
    let token = match auth_token {
        None => {
            return Err(Error::User(UserError::AuthFail));
        },
        Some(token) => token,
    };
    let claims = match jwt.get_claims_from_token(token.as_str()) {
        Ok(claims) => claims,
        Err(e) => {
            return Err(e);
        },
    };
    resolve_from_claims(sessions, &claims, now)
}

/// The session the issue stage leaves behind for `user_id`: the user's
/// live session with a fresh expiry if one exists, a new record at the
/// end of the table otherwise.
pub open spec fn issued_session(
    s: Seq<Option<Session>>,
    user_id: u32,
    expires_at: usize,
) -> Session {
    if has_user_session(s, user_id) {
        Session { id: record_at(s, user_session_index(s, user_id)).id, user_id, expires_at }
    } else {
        Session { id: s.len() as u32, user_id, expires_at }
    }
}

/// Issue/refresh stage, run on the response of a login or registration
/// route. The handler attaches the context of the user it just
/// authenticated; a response without one fails with an authentication
/// error and leaves the session table alone. Otherwise the user's
/// session is created or renewed and a token for it is signed, to be
/// set as the auth cookie with the same validity period.
pub fn issue_auth_token(
    jwt: &JWTController,
    sessions: &mut SessionsService,
    context: Option<&AuthTokenContext>,
    validity_days: u16,
    now: usize,
) -> (r: Result<String, Error>)
    requires
        old(sessions).wf(),
        old(sessions)@.len() < u32::MAX,
        now + validity_days * 86400 <= usize::MAX,
    ensures
        final(sessions).wf(),
        context is None ==> r == Err::<String, Error>(Error::User(UserError::AuthFail))
            && final(sessions)@ == old(sessions)@,
        context matches Some(ctx) ==> ({
            let session = issued_session(
                old(sessions)@,
                ctx.spec_user_id(),
                (now + validity_days * 86400) as usize,
            );
            &&& if has_user_session(old(sessions)@, ctx.spec_user_id()) {
                final(sessions)@ == old(sessions)@.update(
                    user_session_index(old(sessions)@, ctx.spec_user_id()),
                    Some(session),
                )
            } else {
                final(sessions)@ == old(sessions)@.push(Some(session))
            }
            &&& r matches Ok(token)
            &&& token@ == jwt_token_of(jwt.spec_secret(), session.id, session.expires_at)
            &&& jwt_claims_of(token@) == Some((session.id, session.expires_at))
        }),
{
    let ctx = match context {
        None => {
            return Err(Error::User(UserError::AuthFail));
        },
        Some(ctx) => ctx,
    };
    let session = match sessions.create_or_update_session(ctx.user_id(), validity_days, now) {
        Ok(session) => session,
        Err(_) => vstd::pervasive::unreached(),
    };
    let claims = TokenClaims { sub: session.id, exp: session.expires_at };
    jwt.generate_token(&claims)
}

} // verus!
