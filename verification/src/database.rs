//! The three in-memory stores the service runs on.

use vstd::prelude::*;

use crate::notes::{Note, NotesService};
use crate::sessions::{Session, SessionsService};
use crate::users::{User, UsersService};

verus! {

/// One store per entity: users, notes, sessions. All state is
/// process-lifetime only.
pub struct Database {
    pub users: UsersService,
    pub notes: NotesService,
    pub sessions: SessionsService,
}

impl Database {
    /// Empty stores.
    pub fn new() -> (r: Self)
        ensures
            r.users@ == Seq::<Option<User>>::empty(),
            r.users.wf(),
            r.notes@ == Seq::<Option<Note>>::empty(),
            r.notes.wf(),
            r.sessions@ == Seq::<Option<Session>>::empty(),
            r.sessions.wf(),
    {
        Database {
            users: UsersService::new(),
            notes: NotesService::new(),
            sessions: SessionsService::new(),
        }
    }
}

} // verus!
