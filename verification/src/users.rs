//! User accounts: registration, login, edit, deletion, authentication.
//!
//! Users live in a slot store; a user's id is its slot index. Nicknames
//! are unique among live users: registration and edits that would capture
//! a nickname already in use are rejected.

use vstd::prelude::*;

use crate::error::{Error, UserError};
use crate::store::{occupied, record_at, SlotStore};

verus! {

/// A stored account.
#[derive(Debug)]
pub struct User {
    pub id: u32,
    pub name: String,
    pub nickname: String,
    pub password: String,
}

/// Registration request.
pub struct UserCreate {
    pub name: String,
    pub nickname: String,
    pub password: String,
}

/// Login request.
pub struct UserLogin {
    pub nickname: String,
    pub password: String,
}

/// Edit request: absent fields keep their stored value, and the password
/// the caller authenticated with replaces the stored one unless a new
/// password is supplied.
pub struct UserEdit {
    pub id: u32,
    pub password: String,
    pub name: Option<String>,
    pub nickname: Option<String>,
    pub new_password: Option<String>,
}

/// Deletion request.
pub struct UserDelete {
    pub id: u32,
    pub password: String,
}

impl User {
    /// A field-for-field copy.
    pub fn duplicate(&self) -> (r: User)
        ensures
            r == *self,
    {
        User {
            id: self.id,
            name: self.name.clone(),
            nickname: self.nickname.clone(),
            password: self.password.clone(),
        }
    }
}

/// Well-formed account table: every record's id is the index of its slot,
/// and no two live users share a nickname.
pub open spec fn users_well_formed(s: Seq<Option<User>>) -> bool {
    &&& forall|i: int| 0 <= i < s.len() && (#[trigger] s[i]) is Some ==> s[i]->0.id == i
    &&& forall|i: int, j: int|
        0 <= i < s.len() && 0 <= j < s.len() && i != j && (#[trigger] s[i]) is Some && (
        #[trigger] s[j]) is Some ==> s[i]->0.nickname@ != s[j]->0.nickname@
}

/// True when some live user carries `nickname`.
pub open spec fn nickname_taken(s: Seq<Option<User>>, nickname: Seq<char>) -> bool {
    exists|i: int| 0 <= i < s.len() && (#[trigger] s[i]) is Some && s[i]->0.nickname@ == nickname
}

/// True when a live user other than `user_id` carries `nickname`.
pub open spec fn nickname_taken_by_other(
    s: Seq<Option<User>>,
    nickname: Seq<char>,
    user_id: u32,
) -> bool {
    exists|i: int|
        0 <= i < s.len() && (#[trigger] s[i]) is Some && s[i]->0.nickname@ == nickname && s[i]
            ->0.id != user_id
}

/// The index of the live user carrying `nickname` (unique in a
/// well-formed table).
pub open spec fn user_index_of_nickname(s: Seq<Option<User>>, nickname: Seq<char>) -> int {
    choose|i: int|
        0 <= i < s.len() && (#[trigger] s[i]) is Some && s[i]->0.nickname@ == nickname
}

/// The stored account after `edit` is applied to `previous`: absent
/// fields keep their stored value, and the password the caller sent
/// replaces the stored one unless a new password is supplied.
pub open spec fn edited_user(previous: User, edit: UserEdit) -> User {
    User {
        id: previous.id,
        name: if edit.name is Some {
            edit.name->0
        } else {
            previous.name
        },
        nickname: if edit.nickname is Some {
            edit.nickname->0
        } else {
            previous.nickname
        },
        password: if edit.new_password is Some {
            edit.new_password->0
        } else {
            edit.password
        },
    }
}

/// The account store and its rules.
pub struct UsersService {
    store: SlotStore<User>,
}

impl View for UsersService {
    type V = Seq<Option<User>>;

    closed spec fn view(&self) -> Seq<Option<User>> {
        self.store@
    }
}

impl UsersService {
    /// The service keeps its table well-formed.
    pub open spec fn wf(&self) -> bool {
        users_well_formed(self@)
    }

    /// An empty account table.
    pub fn new() -> (r: Self)
        ensures
            r@ == Seq::<Option<User>>::empty(),
            r.wf(),
    {
        UsersService { store: SlotStore::new() }
    }

    /// Number of slots the table holds, cleared ones included.
    pub fn len(&self) -> (n: usize)
        ensures
            n == self@.len(),
    {
        self.store.len()
    }

    /// The slot of the live user carrying `nickname`, if any.
    fn find_by_nickname(&self, nickname: &String) -> (r: Option<usize>)
        ensures
            match r {
                Some(i) => occupied(self@, i as int) && record_at(self@, i as int).nickname@
                    == nickname@,
                None => !nickname_taken(self@, nickname@),
            },
    {
        let n = self.store.len();
        let mut i: usize = 0;
        while i < n
            invariant
                n == self@.len(),
                i <= n,
                forall|j: int|
                    0 <= j < i ==> !((#[trigger] self@[j]) is Some && self@[j]->0.nickname@
                        == nickname@),
            decreases n - i,
        {
            match self.store.get(i) {
                Some(user) => {
                    if user.nickname == *nickname {
                        return Some(i);
                    }
                },
                None => {},
            }
            i += 1;
        }
        None
    }

    /// True when a live user other than `excluded_id` carries `nickname`.
    fn nickname_captured_by_other(&self, nickname: &String, excluded_id: u32) -> (r: bool)
        ensures
            r == nickname_taken_by_other(self@, nickname@, excluded_id),
    {
        let n = self.store.len();
        let mut i: usize = 0;
        while i < n
            invariant
                n == self@.len(),
                i <= n,
                forall|j: int|
                    0 <= j < i ==> !((#[trigger] self@[j]) is Some && self@[j]->0.nickname@
                        == nickname@ && self@[j]->0.id != excluded_id),
            decreases n - i,
        {
            match self.store.get(i) {
                Some(user) => {
                    if user.nickname == *nickname && user.id != excluded_id {
                        return true;
                    }
                },
                None => {},
            }
            i += 1;
        }
        false
    }

    /// Registers an account. A nickname already carried by a live user
    /// is a conflict; otherwise the account is appended and its id is
    /// the pre-insert length of the table.
    pub fn create_user(&mut self, user_create: UserCreate) -> (r: Result<User, Error>)
        requires
            old(self).wf(),
            old(self)@.len() < u32::MAX,
        ensures
            final(self).wf(),
            nickname_taken(old(self)@, user_create.nickname@) ==> r == Err::<User, Error>(
                Error::User(UserError::RegisterFailNicknameCaptured),
            ) && final(self)@ == old(self)@,
            !nickname_taken(old(self)@, user_create.nickname@) ==> ({
                &&& r matches Ok(user)
                &&& user == (User {
                    id: old(self)@.len() as u32,
                    name: user_create.name,
                    nickname: user_create.nickname,
                    password: user_create.password,
                })
                &&& final(self)@ == old(self)@.push(Some(user))
            }),
    {
        match self.find_by_nickname(&user_create.nickname) {
            Some(_) => {
                proof {
                    assert(nickname_taken(self@, user_create.nickname@));
                }
                Err(Error::User(UserError::RegisterFailNicknameCaptured))
            },
            None => {
                let id = self.store.len() as u32;
                let user = User {
                    id,
                    name: user_create.name,
                    nickname: user_create.nickname,
                    password: user_create.password,
                };
                let returned = user.duplicate();
                self.store.insert(user);
                proof {
                    let s0 = old(self)@;
                    assert forall|i: int|
                        0 <= i < self@.len() && (#[trigger] self@[i]) is Some implies self@[i]->0.id
                        == i by {
                        if i < s0.len() {
                            assert(self@[i] == s0[i]);
                        }
                    }
                    assert forall|i: int, j: int|
                        0 <= i < self@.len() && 0 <= j < self@.len() && i != j && (
                        #[trigger] self@[i]) is Some && (#[trigger] self@[j]) is Some implies self@[i]->0.nickname@
                        != self@[j]->0.nickname@ by {
                        if i < s0.len() && j < s0.len() {
                            assert(self@[i] == s0[i] && self@[j] == s0[j]);
                        } else if i < s0.len() {
                            assert(!(s0[i] is Some && s0[i]->0.nickname@ == returned.nickname@));
                            assert(self@[i] == s0[i]);
                        } else {
                            assert(!(s0[j] is Some && s0[j]->0.nickname@ == returned.nickname@));
                            assert(self@[j] == s0[j]);
                        }
                    }
                }
                Ok(returned)
            },
        }
    }

    /// Applies an edit. An edit with no field set is rejected; a new
    /// nickname already carried by another live user is a conflict; a
    /// missing account is not found; otherwise the stored account is
    /// replaced by the edited one and a copy is handed back.
    pub fn edit_user(&mut self, user_edit: UserEdit) -> (r: Result<User, Error>)
        requires
            old(self).wf(),
        ensures
            final(self).wf(),
            (user_edit.name is None && user_edit.nickname is None && user_edit.new_password
                is None) ==> r == Err::<User, Error>(Error::User(UserError::EmptyFieldToEdit))
                && final(self)@ == old(self)@,
            !(user_edit.name is None && user_edit.nickname is None && user_edit.new_password
                is None) && (user_edit.nickname matches Some(nick) && nickname_taken_by_other(
                old(self)@,
                nick@,
                user_edit.id,
            )) ==> r == Err::<User, Error>(Error::User(UserError::EditFailNicknameCaptured))
                && final(self)@ == old(self)@,
            !(user_edit.name is None && user_edit.nickname is None && user_edit.new_password
                is None) && !(user_edit.nickname matches Some(nick) && nickname_taken_by_other(
                old(self)@,
                nick@,
                user_edit.id,
            )) && !occupied(old(self)@, user_edit.id as int) ==> r == Err::<User, Error>(
                Error::User(UserError::UserDoesNotExists),
            ) && final(self)@ == old(self)@,
            !(user_edit.name is None && user_edit.nickname is None && user_edit.new_password
                is None) && !(user_edit.nickname matches Some(nick) && nickname_taken_by_other(
                old(self)@,
                nick@,
                user_edit.id,
            )) && occupied(old(self)@, user_edit.id as int) ==> ({
                &&& r matches Ok(user)
                &&& user == edited_user(record_at(old(self)@, user_edit.id as int), user_edit)
                &&& final(self)@ == old(self)@.update(user_edit.id as int, Some(user))
            }),
    {
        if user_edit.name.is_none() && user_edit.nickname.is_none()
            && user_edit.new_password.is_none() {
            return Err(Error::User(UserError::EmptyFieldToEdit));
        }
        if let Some(new_nickname) = user_edit.nickname.as_ref() {
            if self.nickname_captured_by_other(new_nickname, user_edit.id) {
                return Err(Error::User(UserError::EditFailNicknameCaptured));
            }
        }
        let index = user_edit.id as usize;
        let previous = match self.store.take(index) {
            Some(previous) => previous,
            None => {
                return Err(Error::User(UserError::UserDoesNotExists));
            },
        };
        let user = User {
            id: previous.id,
            name: match user_edit.name {
                Some(name) => name,
                None => previous.name,
            },
            nickname: match user_edit.nickname {
                Some(nickname) => nickname,
                None => previous.nickname,
            },
            password: match user_edit.new_password {
                Some(password) => password,
                None => user_edit.password,
            },
        };
        let returned = user.duplicate();
        self.store.put(index, user);
        proof {
            let s0 = old(self)@;
            assert(s0.update(index as int, None::<User>).update(index as int, Some(returned))
                =~= s0.update(index as int, Some(returned)));
            assert forall|i: int|
                0 <= i < self@.len() && (#[trigger] self@[i]) is Some implies self@[i]->0.id
                == i by {
                if i != index {
                    assert(self@[i] == s0[i]);
                }
            }
            assert forall|i: int, j: int|
                0 <= i < self@.len() && 0 <= j < self@.len() && i != j && (#[trigger] self@[i])
                    is Some && (#[trigger] self@[j]) is Some implies self@[i]->0.nickname@
                != self@[j]->0.nickname@ by {
                if i != index && j != index {
                    assert(self@[i] == s0[i] && self@[j] == s0[j]);
                } else {
                    let other = if i == index {
                        j
                    } else {
                        i
                    };
                    assert(self@[other] == s0[other]);
                    if returned.nickname@ == s0[other]->0.nickname@ {
                        if user_edit.nickname is Some {
                            assert(s0[other] is Some && s0[other]->0.nickname@
                                == user_edit.nickname->0@ && s0[other]->0.id != user_edit.id);
                            assert(false);
                        } else {
                            assert(s0[index as int] is Some && s0[other] is Some);
                            assert(s0[index as int]->0.nickname@ == s0[other]->0.nickname@);
                            assert(false);
                        }
                    }
                }
            }
        }
        Ok(returned)
    }

    /// Removes an account and hands it back; a missing account is not
    /// found.
    pub fn delete_user(&mut self, user_id: u32) -> (r: Result<User, Error>)
        requires
            old(self).wf(),
        ensures
            final(self).wf(),
            !occupied(old(self)@, user_id as int) ==> r == Err::<User, Error>(
                Error::User(UserError::UserDoesNotExists),
            ) && final(self)@ == old(self)@,
            occupied(old(self)@, user_id as int) ==> ({
                &&& r matches Ok(user)
                &&& user == record_at(old(self)@, user_id as int)
                &&& final(self)@ == old(self)@.update(user_id as int, None::<User>)
            }),
    {
        let r = match self.store.take(user_id as usize) {
            Some(user) => Ok(user),
            None => Err(Error::User(UserError::UserDoesNotExists)),
        };
        proof {
            let s0 = old(self)@;
            assert forall|i: int, j: int|
                0 <= i < self@.len() && 0 <= j < self@.len() && i != j && (#[trigger] self@[i])
                    is Some && (#[trigger] self@[j]) is Some implies self@[i]->0.nickname@
                != self@[j]->0.nickname@ by {
                assert(self@[i] == s0[i] && self@[j] == s0[j]);
            }
        }
        r
    }

    /// Checks a password against the stored account: a missing account
    /// is not found, a wrong password is an authentication failure.
    pub fn authenticate(&self, user_id: &u32, password: &String) -> (r: Result<(), Error>)
        ensures
            !occupied(self@, *user_id as int) ==> r == Err::<(), Error>(
                Error::User(UserError::UserDoesNotExists),
            ),
            occupied(self@, *user_id as int) && record_at(self@, *user_id as int).password@
                != password@ ==> r == Err::<(), Error>(Error::User(UserError::AuthFail)),
            occupied(self@, *user_id as int) && record_at(self@, *user_id as int).password@
                == password@ ==> r is Ok,
    {
        match self.store.get(*user_id as usize) {
            None => Err(Error::User(UserError::UserDoesNotExists)),
            Some(user) => {
                if user.password == *password {
                    Ok(())
                } else {
                    Err(Error::User(UserError::AuthFail))
                }
            },
        }
    }

    /// Logs a user in by nickname: an unknown nickname is not found, a
    /// wrong password is rejected, and a match hands back a copy of the
    /// account.
    pub fn login(&self, user_login: UserLogin) -> (r: Result<User, Error>)
        requires
            self.wf(),
        ensures
            !nickname_taken(self@, user_login.nickname@) ==> r == Err::<User, Error>(
                Error::User(UserError::UserDoesNotExists),
            ),
            nickname_taken(self@, user_login.nickname@) ==> ({
                let user = record_at(self@, user_index_of_nickname(self@, user_login.nickname@));
                if user.password@ == user_login.password@ {
                    r == Ok::<User, Error>(user)
                } else {
                    r == Err::<User, Error>(Error::User(UserError::LoginFailInvalidParams))
                }
            }),
    {
        match self.find_by_nickname(&user_login.nickname) {
            None => Err(Error::User(UserError::UserDoesNotExists)),
            Some(index) => {
                let user = self.store.get(index).unwrap();
                proof {
                    let i0 = user_index_of_nickname(self@, user_login.nickname@);
                    assert(nickname_taken(self@, user_login.nickname@));
                    assert(0 <= i0 < self@.len() && self@[i0] is Some && self@[i0]->0.nickname@
                        == user_login.nickname@);
                    assert(i0 == index);
                }
                if user.password == user_login.password {
                    Ok(user.duplicate())
                } else {
                    Err(Error::User(UserError::LoginFailInvalidParams))
                }
            },
        }
    }
}

} // verus!
