//! Per-user notes: create, list, edit, delete.
//!
//! Notes live in a slot store; a note's id is its slot index. Only the
//! creator of a note may edit or delete it: any other caller is turned
//! away with a no-rights error and the note stays untouched.

use vstd::prelude::*;

use crate::error::{Error, NoteError};
use crate::store::{occupied, record_at, SlotStore};

verus! {

/// A stored note.
#[derive(Debug)]
pub struct Note {
    pub id: u64,
    pub creator_id: u32,
    pub title: String,
    pub body: String,
}

/// Creation request.
pub struct NoteCreate {
    pub title: String,
    pub body: String,
}

/// Edit request: absent fields keep their stored value.
pub struct NoteEdit {
    pub id: u64,
    pub title: Option<String>,
    pub body: Option<String>,
}

impl Note {
    /// A field-for-field copy.
    pub fn duplicate(&self) -> (r: Note)
        ensures
            r == *self,
    {
        Note {
            id: self.id,
            creator_id: self.creator_id,
            title: self.title.clone(),
            body: self.body.clone(),
        }
    }
}

/// Well-formed note table: every record's id is the index of its slot.
pub open spec fn notes_well_formed(s: Seq<Option<Note>>) -> bool {
    forall|i: int| 0 <= i < s.len() && (#[trigger] s[i]) is Some ==> s[i]->0.id == i
}

/// The live notes of `creator_id`, in slot order.
pub open spec fn notes_of(s: Seq<Option<Note>>, creator_id: u32) -> Seq<Note>
    decreases s.len(),
{
    if s.len() == 0 {
        Seq::empty()
    } else {
        notes_of(s.drop_last(), creator_id) + (match s.last() {
            Some(note) => if note.creator_id == creator_id {
                seq![note]
            } else {
                Seq::empty()
            },
            None => Seq::empty(),
        })
    }
}

/// The note after `edit` is applied: absent fields keep their stored
/// value; id and creator never change.
pub open spec fn edited_note(previous: Note, edit: NoteEdit) -> Note {
    Note {
        id: previous.id,
        creator_id: previous.creator_id,
        title: if edit.title is Some {
            edit.title->0
        } else {
            previous.title
        },
        body: if edit.body is Some {
            edit.body->0
        } else {
            previous.body
        },
    }
}

/// The note store and its ownership rules.
pub struct NotesService {
    store: SlotStore<Note>,
}

impl View for NotesService {
    type V = Seq<Option<Note>>;

    closed spec fn view(&self) -> Seq<Option<Note>> {
        self.store@
    }
}

impl NotesService {
    /// The service keeps its table well-formed.
    pub open spec fn wf(&self) -> bool {
        notes_well_formed(self@)
    }

    /// An empty note table.
    pub fn new() -> (r: Self)
        ensures
            r@ == Seq::<Option<Note>>::empty(),
            r.wf(),
    {
        NotesService { store: SlotStore::new() }
    }

    /// Number of slots the table holds, cleared ones included.
    pub fn len(&self) -> (n: usize)
        ensures
            n == self@.len(),
    {
        self.store.len()
    }

    /// Appends a note for `creator_id`; its id is the pre-insert length
    /// of the table.
    pub fn create_note(&mut self, note_create: NoteCreate, creator_id: u32) -> (r: Result<
        Note,
        Error,
    >)
        requires
            old(self).wf(),
            old(self)@.len() < u64::MAX,
        ensures
            final(self).wf(),
            ({
                &&& r matches Ok(note)
                &&& note == (Note {
                    id: old(self)@.len() as u64,
                    creator_id,
                    title: note_create.title,
                    body: note_create.body,
                })
                &&& final(self)@ == old(self)@.push(Some(note))
            }),
    {
        let id = self.store.len() as u64;
        let note = Note { id, creator_id, title: note_create.title, body: note_create.body };
        let returned = note.duplicate();
        self.store.insert(note);
        proof {
            let s0 = old(self)@;
            assert forall|i: int|
                0 <= i < self@.len() && (#[trigger] self@[i]) is Some implies self@[i]->0.id
                == i by {
                if i < s0.len() {
                    assert(self@[i] == s0[i]);
                }
            }
        }
        Ok(returned)
    }

    /// A snapshot of the live notes of `creator_id`, in slot order.
    pub fn list_of_notes(&self, creator_id: u32) -> (r: Result<Vec<Note>, Error>)
        ensures
            r matches Ok(notes) && notes@ == notes_of(self@, creator_id),
    {
        let n = self.store.len();
        let mut notes: Vec<Note> = Vec::new();
        let mut i: usize = 0;
        while i < n
            invariant
                n == self@.len(),
                i <= n,
                notes@ == notes_of(self@.take(i as int), creator_id),
            decreases n - i,
        {
            proof {
                assert(self@.take(i + 1).drop_last() =~= self@.take(i as int));
                assert(self@.take(i + 1).last() == self@[i as int]);
            }
            match self.store.get(i) {
                Some(note) => {
                    if note.creator_id == creator_id {
                        notes.push(note.duplicate());
                    }
                },
                None => {},
            }
            i += 1;
        }
        proof {
            assert(self@.take(n as int) =~= self@);
        }
        Ok(notes)
    }

    /// Applies an edit. A missing note is not found; a caller other than
    /// the creator has no right to edit and the note stays unchanged;
    /// otherwise the stored note is replaced by the edited one and a
    /// copy is handed back.
    pub fn edit_note(&mut self, note_edit: NoteEdit, editor_id: u32) -> (r: Result<Note, Error>)
        requires
            old(self).wf(),
        ensures
            final(self).wf(),
            !occupied(old(self)@, note_edit.id as int) ==> r == Err::<Note, Error>(
                Error::Notes(NoteError::NoteDoesNotExists),
            ) && final(self)@ == old(self)@,
            occupied(old(self)@, note_edit.id as int) && record_at(
                old(self)@,
                note_edit.id as int,
            ).creator_id != editor_id ==> r == Err::<Note, Error>(
                Error::Notes(NoteError::EditorCanNotEditNote),
            ) && final(self)@ == old(self)@,
            occupied(old(self)@, note_edit.id as int) && record_at(
                old(self)@,
                note_edit.id as int,
            ).creator_id == editor_id ==> ({
                &&& r matches Ok(note)
                &&& note == edited_note(record_at(old(self)@, note_edit.id as int), note_edit)
                &&& final(self)@ == old(self)@.update(note_edit.id as int, Some(note))
            }),
    {
        let n = self.store.len() as u64;
        if note_edit.id >= n {
            return Err(Error::Notes(NoteError::NoteDoesNotExists));
        }
        let index = note_edit.id as usize;
        let authorized = match self.store.get(index) {
            None => {
                return Err(Error::Notes(NoteError::NoteDoesNotExists));
            },
            Some(note) => note.creator_id == editor_id,
        };
        if !authorized {
            return Err(Error::Notes(NoteError::EditorCanNotEditNote));
        }
        let previous = match self.store.take(index) {
            Some(previous) => previous,
            None => {
                return Err(Error::Notes(NoteError::NoteDoesNotExists));
            },
        };
        let note = Note {
            id: previous.id,
            creator_id: previous.creator_id,
            title: match note_edit.title {
                Some(title) => title,
                None => previous.title,
            },
            body: match note_edit.body {
                Some(body) => body,
                None => previous.body,
            },
        };
        let returned = note.duplicate();
        self.store.put(index, note);
        proof {
            let s0 = old(self)@;
            assert(s0.update(index as int, None::<Note>).update(index as int, Some(returned))
                =~= s0.update(index as int, Some(returned)));
            assert forall|i: int|
                0 <= i < self@.len() && (#[trigger] self@[i]) is Some implies self@[i]->0.id
                == i by {
                if i != index {
                    assert(self@[i] == s0[i]);
                }
            }
        }
        Ok(returned)
    }

    /// Removes a note and hands it back. A missing note is not found; a
    /// caller other than the creator has no right to delete and the
    /// note stays in place.
    pub fn delete_note(&mut self, note_id: u64, deleter_id: u32) -> (r: Result<Note, Error>)
        requires
            old(self).wf(),
        ensures
            final(self).wf(),
            !occupied(old(self)@, note_id as int) ==> r == Err::<Note, Error>(
                Error::Notes(NoteError::NoteDoesNotExists),
            ) && final(self)@ == old(self)@,
            occupied(old(self)@, note_id as int) && record_at(old(self)@, note_id as int).creator_id
                != deleter_id ==> r == Err::<Note, Error>(
                Error::Notes(NoteError::DeleterCanNotDeleteNote),
            ) && final(self)@ == old(self)@,
            occupied(old(self)@, note_id as int) && record_at(old(self)@, note_id as int).creator_id
                == deleter_id ==> ({
                &&& r matches Ok(note)
                &&& note == record_at(old(self)@, note_id as int)
                &&& final(self)@ == old(self)@.update(note_id as int, None::<Note>)
            }),
    {
        let n = self.store.len() as u64;
        if note_id >= n {
            return Err(Error::Notes(NoteError::NoteDoesNotExists));
        }
        let index = note_id as usize;
        let authorized = match self.store.get(index) {
            None => {
                return Err(Error::Notes(NoteError::NoteDoesNotExists));
            },
            Some(note) => note.creator_id == deleter_id,
        };
        if !authorized {
            return Err(Error::Notes(NoteError::DeleterCanNotDeleteNote));
        }
        match self.store.take(index) {
            Some(note) => Ok(note),
            None => Err(Error::Notes(NoteError::NoteDoesNotExists)),
        }
    }
}

} // verus!
