//! State that outlives a turn, kept in memory: the pending action of each
//! user and the record of each user.

use vstd::prelude::*;
use crate::models::{name_fits, valid_name, User, UserView};
use crate::reply::{Change, ChangeView, StoreError};
use crate::route::{same_text, Route};

verus! {

/// A table with at most one entry under each key.
#[derive(Debug, PartialEq, Eq)]
pub struct Table<V> {
    entries: Vec<(String, V)>,
}

impl<V> Table<V> {
    /// Whether the entry at `i` stands under `key`.
    spec fn holds(&self, key: Seq<char>, i: int) -> bool {
        0 <= i < self.entries@.len() && self.entries@[i].0@ == key
    }

    /// No two entries stand under one key.
    pub closed spec fn wf(&self) -> bool {
        forall|i: int, j: int|
            0 <= i < j < self.entries@.len() ==> self.entries@[i].0@ != self.entries@[j].0@
    }

    /// The table as a map from keys to values.
    pub closed spec fn view(&self) -> Map<Seq<char>, V> {
        Map::new(
            |k: Seq<char>| exists|i: int| self.holds(k, i),
            |k: Seq<char>| self.entries@[choose|i: int| self.holds(k, i)].1,
        )
    }

    proof fn lemma_entry(&self, i: int)
        requires
            self.wf(),
            0 <= i < self.entries@.len(),
        ensures
            self@.contains_key(self.entries@[i].0@),
            self@[self.entries@[i].0@] == self.entries@[i].1,
    {
        let k = self.entries@[i].0@;
        assert(self.holds(k, i));
    }

    proof fn lemma_absent(&self, key: Seq<char>)
        requires
            forall|i: int| 0 <= i < self.entries@.len() ==> self.entries@[i].0@ != key,
        ensures
            !self@.contains_key(key),
    {
        assert forall|i: int| !self.holds(key, i) by {}
    }

    /// An empty table.
    pub fn new() -> (r: Self)
        ensures
            r.wf(),
            r@ == Map::<Seq<char>, V>::empty(),
    {
        let r = Table { entries: Vec::new() };
        assert(r@ =~= Map::<Seq<char>, V>::empty()) by {
            assert forall|k: Seq<char>| !r@.contains_key(k) by {
                r.lemma_absent(k);
            }
        }
        r
    }

    fn position(&self, key: &str) -> (r: Option<usize>)
        ensures
            match r {
                Some(i) => self.holds(key@, i as int),
                None => forall|i: int|
                    0 <= i < self.entries@.len() ==> self.entries@[i].0@ != key@,
            },
    {
        let mut i: usize = 0;
        while i < self.entries.len()
            invariant
                i <= self.entries.len(),
                forall|j: int| 0 <= j < i ==> self.entries@[j].0@ != key@,
            decreases self.entries.len() - i,
        {
            if same_text(self.entries[i].0.as_str(), key) {
                return Some(i);
            }
            i = i + 1;
        }
        None
    }

    /// The value under `key`, if there is one.
    pub fn get(&self, key: &str) -> (r: Option<&V>)
        requires
            self.wf(),
        ensures
            match r {
                Some(v) => self@.contains_key(key@) && *v == self@[key@],
                None => !self@.contains_key(key@),
            },
    {
        match self.position(key) {
            Some(i) => {
                proof {
                    self.lemma_entry(i as int);
                }
                Some(&self.entries[i].1)
            },
            None => {
                proof {
                    self.lemma_absent(key@);
                }
                None
            },
        }
    }

    /// Puts `value` under `key`, in place of the value that was there.
    pub fn insert(&mut self, key: &str, value: V)
        requires
            old(self).wf(),
        ensures
            final(self).wf(),
            final(self)@ == old(self)@.insert(key@, value),
    {
        let ghost before = *self;
        match self.position(key) {
            Some(i) => {
                self.entries.set(i, (String::from_str(key), value));
                assert forall|k: Seq<char>| #[trigger]
                    self@.contains_key(k) == before@.insert(key@, value).contains_key(k) && (
                    self@.contains_key(k) ==> self@[k] == before@.insert(key@, value)[k]) by {
                    if before@.contains_key(k) {
                        let j = choose|j: int| before.holds(k, j);
                        before.lemma_entry(j);
                        self.lemma_entry(j);
                    }
                    if self@.contains_key(k) {
                        let j = choose|j: int| self.holds(k, j);
                        before.lemma_entry(j);
                        self.lemma_entry(j);
                    }
                    self.lemma_entry(i as int);
                }
            },
            None => {
                self.entries.push((String::from_str(key), value));
                assert forall|k: Seq<char>| #[trigger]
                    self@.contains_key(k) == before@.insert(key@, value).contains_key(k) && (
                    self@.contains_key(k) ==> self@[k] == before@.insert(key@, value)[k]) by {
                    let last = before.entries@.len() as int;
                    self.lemma_entry(last);
                    if before@.contains_key(k) {
                        let j = choose|j: int| before.holds(k, j);
                        before.lemma_entry(j);
                        self.lemma_entry(j);
                    }
                    if self@.contains_key(k) {
                        let j = choose|j: int| self.holds(k, j);
                        self.lemma_entry(j);
                        if j < last {
                            before.lemma_entry(j);
                        }
                    }
                }
            },
        }
    }

    /// Takes the entry under `key` out, if there is one.
    pub fn remove(&mut self, key: &str)
        requires
            old(self).wf(),
        ensures
            final(self).wf(),
            final(self)@ == old(self)@.remove(key@),
    {
        let ghost before = *self;
        match self.position(key) {
            Some(i) => {
                self.entries.remove(i);
                assert forall|k: Seq<char>| #[trigger]
                    self@.contains_key(k) == before@.remove(key@).contains_key(k) && (
                    self@.contains_key(k) ==> self@[k] == before@.remove(key@)[k]) by {
                    if before@.contains_key(k) && k != key@ {
                        let j = choose|j: int| before.holds(k, j);
                        before.lemma_entry(j);
                        if j < i {
                            self.lemma_entry(j);
                        } else {
                            self.lemma_entry(j - 1);
                        }
                    }
                    if self@.contains_key(k) {
                        let j = choose|j: int| self.holds(k, j);
                        self.lemma_entry(j);
                        if j < i {
                            before.lemma_entry(j);
                        } else {
                            before.lemma_entry(j + 1);
                        }
                    }
                }
            },
            None => {
                proof {
                    self.lemma_absent(key@);
                }
            },
        }
    }
}

/// The step that takes each user's next event where the event names no
/// route: at most one per user.
#[derive(Debug, PartialEq, Eq)]
pub struct PendingActions {
    table: Table<Route>,
}

impl PendingActions {
    /// The invariant of the table underneath.
    pub closed spec fn wf(&self) -> bool {
        self.table.wf()
    }

    /// The pending step of each user who has one.
    pub closed spec fn view(&self) -> Map<Seq<char>, Route> {
        self.table@
    }

    /// No user has a pending step.
    pub fn new() -> (r: Self)
        ensures
            r.wf(),
            r@ == Map::<Seq<char>, Route>::empty(),
    {
        PendingActions { table: Table::new() }
    }

    /// The pending step of a user.
    pub open spec fn pending(&self, user_id: Seq<char>) -> Option<Route> {
        if self@.contains_key(user_id) {
            Some(self@[user_id])
        } else {
            None
        }
    }

    /// The pending step of a user, if there is one.
    pub fn get(&self, user_id: &str) -> (r: Option<Route>)
        requires
            self.wf(),
        ensures
            r == self.pending(user_id@),
    {
        match self.table.get(user_id) {
            Some(route) => Some(*route),
            None => None,
        }
    }

    /// Leaves `route` pending for a user, in place of what was pending.
    pub fn set(&mut self, user_id: &str, route: Route)
        requires
            old(self).wf(),
        ensures
            final(self).wf(),
            final(self)@ == old(self)@.insert(user_id@, route),
    {
        self.table.insert(user_id, route);
    }

    /// Forgets what was pending for a user.
    pub fn clear(&mut self, user_id: &str)
        requires
            old(self).wf(),
        ensures
            final(self).wf(),
            final(self)@ == old(self)@.remove(user_id@),
    {
        self.table.remove(user_id);
    }
}

/// Whether a user other than `user_id` goes by `name`.
pub open spec fn name_used_elsewhere(
    records: Map<Seq<char>, UserView>,
    name: Seq<char>,
    user_id: Seq<char>,
) -> bool {
    exists|k: Seq<char>|
        k != user_id && #[trigger] records.contains_key(k) && records[k].name == name
}

/// What holds of the records at all times: each stands under the identity
/// that it names and is valid, and no two share a display name.
pub open spec fn valid(records: Map<Seq<char>, UserView>) -> bool {
    &&& forall|k: Seq<char>| #[trigger]
        records.contains_key(k) ==> records[k].user_id == k && records[k].wf()
    &&& forall|k: Seq<char>| #[trigger]
        records.contains_key(k) ==> !name_used_elsewhere(records, records[k].name, k)
}

/// Whether a registration is accepted. A name of a length that cannot be
/// registered is a failure of the storage; an identity that is registered
/// already, or a name that another user goes by, is a conflict; a store that
/// has run out of keys is a failure of the storage again.
pub open spec fn create_check(
    records: Map<Seq<char>, UserView>,
    name: Seq<char>,
    user_id: Seq<char>,
    next_id: int,
) -> Result<(), StoreError> {
    if !name_fits(name) {
        Err(StoreError::Storage)
    } else if records.contains_key(user_id) || name_used_elsewhere(records, name, user_id) {
        Err(StoreError::Conflict)
    } else if next_id >= i32::MAX {
        Err(StoreError::Storage)
    } else {
        Ok(())
    }
}

/// Whether a record is accepted in place of the one that its user has. An
/// invalid record, or one of a user without a record, is a failure of the
/// storage; a name that another user goes by is a conflict.
pub open spec fn update_check(records: Map<Seq<char>, UserView>, user: UserView) -> Result<
    (),
    StoreError,
> {
    if !user.wf() || !records.contains_key(user.user_id) {
        Err(StoreError::Storage)
    } else if name_used_elsewhere(records, user.name, user.user_id) {
        Err(StoreError::Conflict)
    } else {
        Ok(())
    }
}

/// Whether a change to the record of `user_id` is accepted.
pub open spec fn change_check(
    records: Map<Seq<char>, UserView>,
    user_id: Seq<char>,
    change: ChangeView,
    next_id: int,
) -> Result<(), StoreError> {
    match change {
        ChangeView::Nothing => Ok(()),
        ChangeView::Create { name } => create_check(records, name, user_id, next_id),
        ChangeView::Update(user) => update_check(records, user),
        ChangeView::Delete => Ok(()),
    }
}

/// The records after a change to the record of `user_id` that was accepted.
pub open spec fn changed(
    records: Map<Seq<char>, UserView>,
    user_id: Seq<char>,
    change: ChangeView,
    next_id: int,
) -> Map<Seq<char>, UserView> {
    match change {
        ChangeView::Nothing => records,
        ChangeView::Create { name } => records.insert(
            user_id,
            UserView::fresh(next_id, name, user_id),
        ),
        ChangeView::Update(user) => records.insert(user.user_id, user),
        ChangeView::Delete => records.remove(user_id),
    }
}

/// The records after a change to the record of `user_id` was asked for: a
/// change that is refused leaves them as they were.
pub open spec fn applied(
    records: Map<Seq<char>, UserView>,
    user_id: Seq<char>,
    change: ChangeView,
    next_id: int,
) -> Map<Seq<char>, UserView> {
    if change_check(records, user_id, change, next_id) is Ok {
        changed(records, user_id, change, next_id)
    } else {
        records
    }
}

/// The records of the users, by identity.
#[derive(Debug, PartialEq, Eq)]
pub struct UserStore {
    table: Table<User>,
    next_id: i32,
}

impl UserStore {
    /// The records by identity.
    pub closed spec fn view(&self) -> Map<Seq<char>, UserView> {
        Map::new(|k: Seq<char>| self.table@.contains_key(k), |k: Seq<char>| self.table@[k]@)
    }

    /// The key that the next record gets.
    pub closed spec fn next_id(&self) -> int {
        self.next_id as int
    }

    /// The invariant of the store.
    pub closed spec fn wf(&self) -> bool {
        self.table.wf() && valid(self@)
    }

    /// The records of a store are valid.
    pub proof fn wf_is_valid(&self)
        requires
            self.wf(),
        ensures
            valid(self@),
    {
    }

    /// A store without records.
    pub fn new() -> (r: Self)
        ensures
            r.wf(),
            r@ == Map::<Seq<char>, UserView>::empty(),
            r.next_id() == 1,
    {
        let r = UserStore { table: Table::new(), next_id: 1 };
        r
    }

    /// The record of a user, if there is one.
    pub fn get(&self, user_id: &str) -> (r: Option<User>)
        requires
            self.wf(),
        ensures
            match r {
                Some(u) => self@.contains_key(user_id@) && u@ == self@[user_id@],
                None => !self@.contains_key(user_id@),
            },
    {
        match self.table.get(user_id) {
            Some(user) => Some(user.clone()),
            None => None,
        }
    }

    fn used_elsewhere(&self, name: &str, user_id: &str) -> (r: bool)
        requires
            self.wf(),
        ensures
            r == name_used_elsewhere(self@, name@, user_id@),
    {
        let mut i: usize = 0;
        while i < self.table.entries.len()
            invariant
                self.wf(),
                i <= self.table.entries.len(),
                forall|j: int|
                    0 <= j < i ==> !(self.table.entries@[j].0@ != user_id@
                        && self.table.entries@[j].1.name@ == name@),
            decreases self.table.entries.len() - i,
        {
            let entry = &self.table.entries[i];
            if !same_text(entry.0.as_str(), user_id) && same_text(entry.1.name.as_str(), name) {
                proof {
                    self.table.lemma_entry(i as int);
                    assert(self@.contains_key(entry.0@));
                }
                return true;
            }
            i = i + 1;
        }
        proof {
            assert forall|k: Seq<char>|
                k != user_id@ && #[trigger] self@.contains_key(k) implies self@[k].name
                    != name@ by {
                let j = choose|j: int| self.table.holds(k, j);
                self.table.lemma_entry(j);
            }
        }
        false
    }

    /// Registers a user under a display name, with no score and no category.
    pub fn create(&mut self, name: &str, user_id: &str) -> (r: Result<User, StoreError>)
        requires
            old(self).wf(),
        ensures
            final(self).wf(),
            match create_check(old(self)@, name@, user_id@, old(self).next_id()) {
                Ok(_) => {
                    &&& r matches Ok(u) && u@ == UserView::fresh(
                        old(self).next_id(),
                        name@,
                        user_id@,
                    )
                    &&& final(self)@ == old(self)@.insert(
                        user_id@,
                        UserView::fresh(old(self).next_id(), name@, user_id@),
                    )
                    &&& final(self).next_id() == old(self).next_id() + 1
                },
                Err(e) => {
                    &&& r matches Err(x) && x == e
                    &&& final(self)@ == old(self)@
                    &&& final(self).next_id() == old(self).next_id()
                },
            },
    {
        if !valid_name(name) {
            return Err(StoreError::Storage);
        }
        if self.table.get(user_id).is_some() || self.used_elsewhere(name, user_id) {
            return Err(StoreError::Conflict);
        }
        if self.next_id >= i32::MAX {
            return Err(StoreError::Storage);
        }
        let ghost before = *self;
        let user = User::new(self.next_id, name, user_id);
        let copy = user.clone();
        self.table.insert(user_id, user);
        self.next_id = self.next_id + 1;
        proof {
            assert(self@ =~= before@.insert(user_id@, copy@));
            lemma_insert_keeps_valid(before@, copy@);
        }
        Ok(copy)
    }

    /// Puts a record in place of the one that its user has.
    pub fn update(&mut self, user: User) -> (r: Result<(), StoreError>)
        requires
            old(self).wf(),
        ensures
            final(self).wf(),
            r == update_check(old(self)@, user@),
            final(self)@ == if r is Ok {
                old(self)@.insert(user@.user_id, user@)
            } else {
                old(self)@
            },
            final(self).next_id() == old(self).next_id(),
    {
        if !valid_name(user.name.as_str()) || user.score < 0 || self.table.get(
            user.user_id.as_str(),
        ).is_none() {
            return Err(StoreError::Storage);
        }
        if self.used_elsewhere(user.name.as_str(), user.user_id.as_str()) {
            return Err(StoreError::Conflict);
        }
        let ghost before = *self;
        let key = user.user_id.clone();
        self.table.insert(key.as_str(), user);
        proof {
            assert(self@ =~= before@.insert(user@.user_id, user@));
            lemma_insert_keeps_valid(before@, user@);
        }
        Ok(())
    }

    /// Deletes the record of a user. Where there is none, nothing changes.
    pub fn delete(&mut self, user_id: &str) -> (r: Result<(), StoreError>)
        requires
            old(self).wf(),
        ensures
            final(self).wf(),
            r == Ok::<(), StoreError>(()),
            final(self)@ == old(self)@.remove(user_id@),
            final(self).next_id() == old(self).next_id(),
    {
        let ghost before = *self;
        self.table.remove(user_id);
        proof {
            assert(self@ =~= before@.remove(user_id@));
            lemma_remove_keeps_valid(before@, user_id@);
        }
        Ok(())
    }

    /// Applies the change that a step asked for to the record of `user_id`.
    /// A change that is refused leaves the store as it was.
    pub fn apply(&mut self, user_id: &str, change: &Change) -> (r: Result<(), StoreError>)
        requires
            old(self).wf(),
        ensures
            final(self).wf(),
            r == change_check(old(self)@, user_id@, change@, old(self).next_id()),
            final(self)@ == applied(old(self)@, user_id@, change@, old(self).next_id()),
    {
        match change {
            Change::Nothing => Ok(()),
            Change::Create { name } => match self.create(name.as_str(), user_id) {
                Ok(_) => Ok(()),
                Err(e) => Err(e),
            },
            Change::Update(user) => self.update(user.clone()),
            Change::Delete => self.delete(user_id),
        }
    }
}

/// Valid records stay valid when a valid record is put under its own
/// identity with a name that no other user goes by.
pub proof fn lemma_insert_keeps_valid(records: Map<Seq<char>, UserView>, user: UserView)
    requires
        valid(records),
        user.wf(),
        !name_used_elsewhere(records, user.name, user.user_id),
    ensures
        valid(records.insert(user.user_id, user)),
{
}

/// Valid records stay valid when one is taken out.
pub proof fn lemma_remove_keeps_valid(records: Map<Seq<char>, UserView>, user_id: Seq<char>)
    requires
        valid(records),
    ensures
        valid(records.remove(user_id)),
{
}

} // verus!
