//! Session lifecycle: create or renew, invalidate, check a token claim.
//!
//! A session binds a user to an expiry and is addressed by its slot id.
//! Renewal keeps id and user id and replaces only the expiry, and a token
//! claim is compared for exact equality against the stored expiry, so a
//! renewal immediately invalidates every token issued before it.

use vstd::prelude::*;

use crate::error::{Error, SessionError};
use crate::store::{occupied, record_at, SlotStore};

verus! {

/// Server-side session record. The id is the slot index in the session
/// store; `expires_at` is an epoch timestamp in seconds.
#[derive(Clone, Copy, Debug, PartialEq, Eq, Structural)]
pub struct Session {
    pub id: u32,
    pub user_id: u32,
    pub expires_at: usize,
}

/// Well-formed session table: every record's id is the index of its slot,
/// and no two live sessions belong to the same user.
pub open spec fn sessions_well_formed(s: Seq<Option<Session>>) -> bool {
    &&& forall|i: int| 0 <= i < s.len() && (#[trigger] s[i]) is Some ==> s[i]->0.id == i
    &&& forall|i: int, j: int|
        0 <= i < s.len() && 0 <= j < s.len() && i != j && (#[trigger] s[i]) is Some && (
        #[trigger] s[j]) is Some ==> s[i]->0.user_id != s[j]->0.user_id
}

/// True when some live session belongs to `user_id`.
pub open spec fn has_user_session(s: Seq<Option<Session>>, user_id: u32) -> bool {
    exists|i: int| 0 <= i < s.len() && (#[trigger] s[i]) is Some && s[i]->0.user_id == user_id
}

/// The index of the live session of `user_id` (unique in a well-formed
/// table).
pub open spec fn user_session_index(s: Seq<Option<Session>>, user_id: u32) -> int {
    choose|i: int| 0 <= i < s.len() && (#[trigger] s[i]) is Some && s[i]->0.user_id == user_id
}

/// The table after every session of `user_id` is cleared.
pub open spec fn without_user_session(s: Seq<Option<Session>>, user_id: u32) -> Seq<
    Option<Session>,
> {
    Seq::new(
        s.len(),
        |i: int|
            if s[i] is Some && s[i]->0.user_id == user_id {
                None
            } else {
                s[i]
            },
    )
}

/// What checking the claim `claimed` against session `session_id` yields:
/// a missing session is not found, a stored expiry different from the
/// claim makes the token invalid, and an exact match hands back the
/// session's user.
pub open spec fn validity_outcome(s: Seq<Option<Session>>, session_id: u32, claimed: usize) -> Result<
    u32,
    Error,
> {
    if !occupied(s, session_id as int) {
        Err(Error::Sessions(SessionError::SessionDoesNotExists))
    } else if record_at(s, session_id as int).expires_at != claimed {
        Err(Error::Sessions(SessionError::SessionInvalid))
    } else {
        Ok(record_at(s, session_id as int).user_id)
    }
}

/// The session store and its lifecycle rules.
pub struct SessionsService {
    store: SlotStore<Session>,
}

impl View for SessionsService {
    type V = Seq<Option<Session>>;

    closed spec fn view(&self) -> Seq<Option<Session>> {
        self.store@
    }
}

impl SessionsService {
    /// The service keeps its table well-formed.
    pub open spec fn wf(&self) -> bool {
        sessions_well_formed(self@)
    }

    /// An empty session table.
    pub fn new() -> (r: Self)
        ensures
            r@ == Seq::<Option<Session>>::empty(),
            r.wf(),
    {
        SessionsService { store: SlotStore::new() }
    }

    /// Number of slots the table holds, cleared ones included.
    pub fn len(&self) -> (n: usize)
        ensures
            n == self@.len(),
    {
        self.store.len()
    }

    /// The slot of the live session of `user_id`, if one exists.
    fn find_user_session(&self, user_id: u32) -> (r: Option<usize>)
        ensures
            match r {
                Some(i) => occupied(self@, i as int) && record_at(self@, i as int).user_id
                    == user_id,
                None => !has_user_session(self@, user_id),
            },
    {
        let n = self.store.len();
        let mut i: usize = 0;
        while i < n
            invariant
                n == self@.len(),
                i <= n,
                forall|j: int|
                    0 <= j < i ==> !((#[trigger] self@[j]) is Some && self@[j]->0.user_id
                        == user_id),
            decreases n - i,
        {
            match self.store.get(i) {
                Some(session) => {
                    if session.user_id == user_id {
                        return Some(i);
                    }
                },
                None => {},
            }
            i += 1;
        }
        None
    }

    /// Renews the session of `user_id` if one is live — same id, same
    /// user, fresh expiry — and creates one otherwise. The expiry is
    /// `now` plus the validity period in days.
    pub fn create_or_update_session(&mut self, user_id: u32, validity_days: u16, now: usize) -> (r:
        Result<Session, Error>)
        requires
            old(self).wf(),
            old(self)@.len() < u32::MAX,
            now + validity_days * 86400 <= usize::MAX,
        ensures
            final(self).wf(),
            ({
                &&& r matches Ok(session)
                &&& session.user_id == user_id
                &&& session.expires_at == now + validity_days * 86400
                &&& if has_user_session(old(self)@, user_id) {
                    let i = user_session_index(old(self)@, user_id);
                    &&& session.id == record_at(old(self)@, i).id
                    &&& session.id == i
                    &&& final(self)@ == old(self)@.update(i, Some(session))
                } else {
                    &&& session.id == old(self)@.len()
                    &&& final(self)@ == old(self)@.push(Some(session))
                }
            }),
    {
        let expires_at: usize = now + (validity_days as usize) * 86400;
        match self.find_user_session(user_id) {
            Some(index) => {
                let previous: Session = *self.store.get(index).unwrap();
                let session = Session { id: previous.id, user_id: previous.user_id, expires_at };
                self.store.put(index, session);
                proof {
                    let s0 = old(self)@;
                    let i0 = user_session_index(s0, user_id);
                    assert(0 <= index < s0.len() && s0[index as int] is Some && s0[index as int]
                        ->0.user_id == user_id);
                    assert(has_user_session(s0, user_id));
                    assert(0 <= i0 < s0.len() && s0[i0] is Some && s0[i0]->0.user_id == user_id);
                    assert(i0 == index);
                    assert forall|i: int|
                        0 <= i < self@.len() && (#[trigger] self@[i]) is Some implies self@[i]->0.id
                        == i by {
                        if i != index {
                            assert(self@[i] == s0[i]);
                        }
                    }
                    assert forall|i: int, j: int|
                        0 <= i < self@.len() && 0 <= j < self@.len() && i != j && (
                        #[trigger] self@[i]) is Some && (#[trigger] self@[j]) is Some implies self@[i]->0.user_id
                        != self@[j]->0.user_id by {
                        assert(s0[i] is Some && s0[j] is Some);
                        assert(self@[i]->0.user_id == s0[i]->0.user_id);
                        assert(self@[j]->0.user_id == s0[j]->0.user_id);
                    }
                }
                Ok(session)
            },
            None => {
                let id = self.store.len() as u32;
                let session = Session { id, user_id, expires_at };
                self.store.insert(session);
                proof {
                    let s0 = old(self)@;
                    assert forall|i: int|
                        0 <= i < self@.len() && (#[trigger] self@[i]) is Some implies self@[i]->0.id
                        == i by {
                        if i < s0.len() {
                            assert(self@[i] == s0[i]);
                        } else {
                            assert(self@[i] == Some(session));
                        }
                    }
                    assert forall|i: int, j: int|
                        0 <= i < self@.len() && 0 <= j < self@.len() && i != j && (
                        #[trigger] self@[i]) is Some && (#[trigger] self@[j]) is Some implies self@[i]->0.user_id
                        != self@[j]->0.user_id by {
                        if i < s0.len() && j < s0.len() {
                            assert(self@[i] == s0[i]);
                            assert(self@[j] == s0[j]);
                        } else if i < s0.len() {
                            assert(self@[j] == Some(session));
                            assert(!(s0[i] is Some && s0[i]->0.user_id == user_id));
                        } else {
                            assert(self@[i] == Some(session));
                            assert(!(s0[j] is Some && s0[j]->0.user_id == user_id));
                        }
                    }
                }
                Ok(session)
            },
        }
    }

    /// Clears the session of `user_id`. Idempotent: when no session is
    /// live for that user the call changes nothing and still succeeds.
    pub fn delete_session(&mut self, user_id: u32) -> (r: Result<(), Error>)
        requires
            old(self).wf(),
        ensures
            final(self).wf(),
            r is Ok,
            final(self)@ == without_user_session(old(self)@, user_id),
    {
        match self.find_user_session(user_id) {
            Some(index) => {
                self.store.take(index);
                proof {
                    let s0 = old(self)@;
                    assert forall|i: int| 0 <= i < self@.len() implies self@[i]
                        == without_user_session(s0, user_id)[i] by {
                        if i != index {
                            assert(self@[i] == s0[i]);
                            if s0[i] is Some && s0[i]->0.user_id == user_id {
                                assert(s0[index as int] is Some && s0[index as int]->0.user_id
                                    == user_id);
                                assert(false);
                            }
                        }
                    }
                    assert(self@ =~= without_user_session(s0, user_id));
                    assert forall|i: int, j: int|
                        0 <= i < self@.len() && 0 <= j < self@.len() && i != j && (
                        #[trigger] self@[i]) is Some && (#[trigger] self@[j]) is Some implies self@[i]->0.user_id
                        != self@[j]->0.user_id by {
                        assert(self@[i] == s0[i] && self@[j] == s0[j]);
                    }
                }
            },
            None => {
                proof {
                    assert(self@ =~= without_user_session(self@, user_id));
                }
            },
        }
        Ok(())
    }

    /// Checks the expiry claim of a token against the stored session and
    /// hands back the session's user on an exact match.
    pub fn session_validity(&self, session_id: u32, token_expires_at: usize) -> (r: Result<
        u32,
        Error,
    >)
        ensures
            r == validity_outcome(self@, session_id, token_expires_at),
    {
        match self.store.get(session_id as usize) {
            None => Err(Error::Sessions(SessionError::SessionDoesNotExists)),
            Some(session) => {
                if session.expires_at == token_expires_at {
                    Ok(session.user_id)
                } else {
                    Err(Error::Sessions(SessionError::SessionInvalid))
                }
            },
        }
    }
}

/// Law: a well-formed session table holds at most one live session per
/// user — two occupied slots with the same user are the same slot.
pub proof fn lemma_at_most_one_session_per_user(s: Seq<Option<Session>>, i: int, j: int)
    requires
        sessions_well_formed(s),
        occupied(s, i),
        occupied(s, j),
        record_at(s, i).user_id == record_at(s, j).user_id,
    ensures
        i == j,
{
}

/// Law: after a renewal stores a fresh expiry at a session's slot, a
/// token that still claims any other expiry is rejected as invalid —
/// whether or not the claimed time has passed.
pub proof fn lemma_renewal_invalidates_prior_token(
    before: Seq<Option<Session>>,
    after: Seq<Option<Session>>,
    session_id: u32,
    renewed: Session,
    claimed: usize,
)
    requires
        occupied(before, session_id as int),
        renewed.expires_at != claimed,
        after == before.update(session_id as int, Some(renewed)),
    ensures
        validity_outcome(after, session_id, claimed) == Err::<u32, Error>(
            Error::Sessions(SessionError::SessionInvalid),
        ),
{
}

/// Law: clearing the sessions of a user is idempotent — a second
/// deletion finds nothing and leaves the table as the first left it.
pub proof fn lemma_delete_session_idempotent(s: Seq<Option<Session>>, user_id: u32)
    ensures
        without_user_session(without_user_session(s, user_id), user_id) == without_user_session(
            s,
            user_id,
        ),
{
    assert(without_user_session(without_user_session(s, user_id), user_id)
        =~= without_user_session(s, user_id));
}

} // verus!
