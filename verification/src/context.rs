//! Request-scoped identity attached after successful validation.

use vstd::prelude::*;

verus! {

/// The resolved caller of a request: set by the authentication pipeline,
/// consumed by handlers, never persisted.
#[derive(Clone, Copy, Debug, PartialEq, Eq, Structural)]
pub struct AuthTokenContext {
    user_id: u32,
}

impl AuthTokenContext {
    /// The identity this context carries.
    pub closed spec fn spec_user_id(&self) -> u32 {
        self.user_id
    }

    /// A context for the given user.
    pub fn new(user_id: u32) -> (r: Self)
        ensures
            r.spec_user_id() == user_id,
    {
        AuthTokenContext { user_id }
    }

    /// The id of the authenticated user.
    pub fn user_id(&self) -> (r: u32)
        ensures
            r == self.spec_user_id(),
    {
        self.user_id
    }
}

} // verus!
