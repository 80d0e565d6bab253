//! Index-addressed collection with soft-delete.
//!
//! A record's identity is the index of the slot it occupies. Slots are
//! appended at the end and never repopulated with a different record:
//! deletion leaves an empty slot behind, so an index never silently refers
//! to another live record. The length of the store only grows.

use vstd::prelude::*;

verus! {

/// True when index `i` lies inside `s` and the slot there holds a record.
pub open spec fn occupied<T>(s: Seq<Option<T>>, i: int) -> bool {
    0 <= i < s.len() && s[i] is Some
}

/// The record held at index `i`.
pub open spec fn record_at<T>(s: Seq<Option<T>>, i: int) -> T
    recommends
        occupied(s, i),
{
    s[i]->0
}

/// Growable sequence of slots, each either empty or holding one record.
pub struct SlotStore<T> {
    slots: Vec<Option<T>>,
}

impl<T> View for SlotStore<T> {
    type V = Seq<Option<T>>;

    closed spec fn view(&self) -> Seq<Option<T>> {
        self.slots@
    }
}

impl<T> SlotStore<T> {
    /// An empty store.
    pub fn new() -> (store: Self)
        ensures
            store@ == Seq::<Option<T>>::empty(),
    {
        SlotStore { slots: Vec::new() }
    }

    /// Number of slots, occupied or not.
    pub fn len(&self) -> (n: usize)
        ensures
            n == self@.len(),
    {
        self.slots.len()
    }

    /// A view into the record at `index`, if that slot exists and is occupied.
    pub fn get(&self, index: usize) -> (r: Option<&T>)
        ensures
            match r {
                Some(record) => occupied(self@, index as int) && self@[index as int] == Some(*record),
                None => !occupied(self@, index as int),
            },
    {
        if index < self.slots.len() {
            match &self.slots[index] {
                Some(record) => Some(record),
                None => None,
            }
        } else {
            None
        }
    }

    /// Appends a record in a fresh slot; the returned id is the slot's index,
    /// which equals the length of the store before the call.
    pub fn insert(&mut self, record: T) -> (id: usize)
        ensures
            id == old(self)@.len(),
            final(self)@ == old(self)@.push(Some(record)),
    {
        let id = self.slots.len();
        self.slots.push(Some(record));
        id
    }

    /// Removes and returns the occupant of `index`, leaving the slot empty.
    /// An absent occupant (missing slot or already empty) leaves the store
    /// unchanged.
    pub fn take(&mut self, index: usize) -> (r: Option<T>)
        ensures
            match r {
                Some(record) => occupied(old(self)@, index as int)
                    && old(self)@[index as int] == Some(record)
                    && final(self)@ == old(self)@.update(index as int, None::<T>),
                None => !occupied(old(self)@, index as int) && final(self)@ == old(self)@,
            },
    {
        if index < self.slots.len() {
            let r = self.slots[index].take();
            proof {
                if old(self)@[index as int] is None {
                    assert(old(self)@.update(index as int, None::<T>) =~= old(self)@);
                }
            }
            r
        } else {
            None
        }
    }

    /// Stores `record` at `index`, overwriting whatever the slot held.
    pub fn put(&mut self, index: usize, record: T)
        requires
            index < old(self)@.len(),
        ensures
            final(self)@ == old(self)@.update(index as int, Some(record)),
    {
        self.slots[index] = Some(record);
    }

    /// Swaps `record` into an occupied slot and hands back the previous
    /// occupant; fails without changing anything when the slot is missing
    /// or empty.
    pub fn replace(&mut self, index: usize, record: T) -> (r: Result<T, ()>)
        ensures
            match r {
                Ok(previous) => occupied(old(self)@, index as int)
                    && old(self)@[index as int] == Some(previous)
                    && final(self)@ == old(self)@.update(index as int, Some(record)),
                Err(_) => !occupied(old(self)@, index as int) && final(self)@ == old(self)@,
            },
    {
        if index < self.slots.len() {
            match self.slots[index].take() {
                Some(previous) => {
                    self.slots[index] = Some(record);
                    Ok(previous)
                }
                None => {
                    proof {
                        assert(old(self)@.update(index as int, None::<T>) =~= old(self)@);
                    }
                    Err(())
                }
            }
        } else {
            Err(())
        }
    }
}

/// Law: each insert returns the pre-insert length as the new record's id,
/// so the ids returned by consecutive inserts are strictly increasing.
pub proof fn lemma_insert_ids_strictly_increase<T>(s0: Seq<Option<T>>, first: T, second: T)
    ensures
        ({
            let id0 = s0.len();
            let s1 = s0.push(Some(first));
            let id1 = s1.len();
            id1 == id0 + 1 && id1 > id0
        }),
{
}

/// Law: once `take` has cleared a slot, a `get` at the same index finds
/// no record.
pub proof fn lemma_taken_slot_reads_absent<T>(s: Seq<Option<T>>, i: int)
    requires
        0 <= i < s.len(),
    ensures
        !occupied(s.update(i, None::<T>), i),
{
}

} // verus!
