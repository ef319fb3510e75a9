//! The session store: one record per user.
//!
//! The store is a list of users with their records in which no user occurs
//! twice. What it stands for is a map from users to records, together with
//! the order in which the users were first stored.
use crate::ids::ActorId;
use crate::session::{SessionInfo, SessionInfoView};
use vstd::prelude::*;

verus! {

/// The views of a list of records.
pub open spec fn records_view(records: Seq<(ActorId, SessionInfo)>) -> Seq<
    (ActorId, SessionInfoView),
> {
    records.map_values(|record: (ActorId, SessionInfo)| (record.0, record.1@))
}

/// The users of a list of records, in the order of the list.
spec fn listed_users(records: Seq<(ActorId, SessionInfoView)>) -> Seq<ActorId> {
    records.map_values(|record: (ActorId, SessionInfoView)| record.0)
}

/// Where the user stands in the list.
spec fn position_of(records: Seq<(ActorId, SessionInfoView)>, user: ActorId) -> int {
    choose|i: int| 0 <= i < records.len() && (#[trigger] records[i]).0 == user
}

/// The map that a list of records stands for: each listed user, with the
/// record that the list holds for that user.
spec fn records_to_map(records: Seq<(ActorId, SessionInfoView)>) -> Map<
    ActorId,
    SessionInfoView,
> {
    Map::new(
        |user: ActorId| listed_users(records).contains(user),
        |user: ActorId| records[position_of(records, user)].1,
    )
}

/// In a list without repeated users, the map holds for each listed user the
/// record that the list holds.
proof fn lemma_listed_record(records: Seq<(ActorId, SessionInfoView)>, i: int)
    requires
        listed_users(records).no_duplicates(),
        0 <= i < records.len(),
    ensures
        records_to_map(records).contains_key(records[i].0),
        records_to_map(records)[records[i].0] == records[i].1,
        position_of(records, records[i].0) == i,
{
    let users = listed_users(records);
    let user = records[i].0;
    assert(users[i] == user);
    let j = position_of(records, user);
    assert(0 <= j < records.len() && records[j].0 == user);
    assert(users[j] == user);
}

/// A listed user stands somewhere in the list.
proof fn lemma_position(records: Seq<(ActorId, SessionInfoView)>, user: ActorId)
    requires
        listed_users(records).contains(user),
    ensures
        0 <= position_of(records, user) < records.len(),
        records[position_of(records, user)].0 == user,
{
    let users = listed_users(records);
    let i = choose|i: int| 0 <= i < users.len() && users[i] == user;
    assert(records[i].0 == user);
}

/// Replacing the record of a listed user replaces it in the map, and leaves
/// the users as they are.
proof fn lemma_update_record(
    records: Seq<(ActorId, SessionInfoView)>,
    i: int,
    info: SessionInfoView,
)
    requires
        listed_users(records).no_duplicates(),
        0 <= i < records.len(),
    ensures
        listed_users(records.update(i, (records[i].0, info))) == listed_users(records),
        records_to_map(records.update(i, (records[i].0, info))) == records_to_map(records).insert(
            records[i].0,
            info,
        ),
{
    let user = records[i].0;
    let updated = records.update(i, (user, info));
    assert(listed_users(updated) =~= listed_users(records));
    assert(listed_users(records)[i] == user);
    let before = records_to_map(records).insert(user, info);
    let after = records_to_map(updated);
    assert forall|u: ActorId| after.contains_key(u) implies after[u] == before[u] by {
        lemma_position(updated, u);
        let k = position_of(updated, u);
        lemma_listed_record(updated, k);
        if k != i {
            assert(records[k].0 == u);
            assert(listed_users(records)[k] == u);
            assert(u != user);
            lemma_listed_record(records, k);
        } else {
            assert(u == user);
        }
    }
    assert(after =~= before);
}

/// Appending the record of a user that is not listed adds it to the map, and
/// adds the user after the others.
proof fn lemma_push_record(
    records: Seq<(ActorId, SessionInfoView)>,
    user: ActorId,
    info: SessionInfoView,
)
    requires
        listed_users(records).no_duplicates(),
        !listed_users(records).contains(user),
    ensures
        listed_users(records.push((user, info))) == listed_users(records).push(user),
        listed_users(records.push((user, info))).no_duplicates(),
        records_to_map(records.push((user, info))) == records_to_map(records).insert(user, info),
{
    let users = listed_users(records);
    let pushed = records.push((user, info));
    assert(listed_users(pushed) =~= users.push(user));
    assert forall|a: int, b: int|
        0 <= a < users.push(user).len() && 0 <= b < users.push(user).len() && a != b implies users.push(
        user,
    )[a] != users.push(user)[b] by {
        if a < users.len() {
            assert(users[a] == users.push(user)[a]);
            assert(users.contains(users[a]));
        }
        if b < users.len() {
            assert(users[b] == users.push(user)[b]);
            assert(users.contains(users[b]));
        }
    }
    let before = records_to_map(records).insert(user, info);
    let after = records_to_map(pushed);
    assert forall|u: ActorId| after.contains_key(u) <==> before.contains_key(u) by {
        if listed_users(pushed).contains(u) {
            lemma_position(pushed, u);
            let k = position_of(pushed, u);
            if k < records.len() {
                assert(users[k] == u);
            }
        }
        if users.contains(u) {
            lemma_position(records, u);
            let k = position_of(records, u);
            assert(listed_users(pushed)[k] == u);
        }
        if u == user {
            assert(listed_users(pushed)[records.len() as int] == u);
        }
    }
    assert forall|u: ActorId| after.contains_key(u) implies after[u] == before[u] by {
        lemma_position(pushed, u);
        let k = position_of(pushed, u);
        lemma_listed_record(pushed, k);
        if k < records.len() {
            assert(records[k].0 == u);
            lemma_listed_record(records, k);
        }
    }
    assert(after =~= before);
}

/// The records of all users, at most one per user.
pub struct SessionStore {
    records: Vec<(ActorId, SessionInfo)>,
}

impl View for SessionStore {
    type V = Map<ActorId, SessionInfoView>;

    /// The record of each user that has one.
    closed spec fn view(&self) -> Map<ActorId, SessionInfoView> {
        records_to_map(records_view(self.records@))
    }
}

impl SessionStore {
    /// The users that have a record, in the order in which they were first stored.
    pub closed spec fn users(&self) -> Seq<ActorId> {
        listed_users(records_view(self.records@))
    }

    /// No user is listed twice.
    pub open spec fn wf(&self) -> bool {
        self.users().no_duplicates()
    }

    /// All records, in the order of their users.
    pub open spec fn snapshot(&self) -> Seq<(ActorId, SessionInfoView)> {
        self.users().map_values(|user: ActorId| (user, self@[user]))
    }

    /// The users that are listed are those that have a record.
    pub proof fn lemma_users_have_records(&self)
        ensures
            forall|user: ActorId| self@.contains_key(user) <==> self.users().contains(user),
    {
    }

    /// The store without any record.
    pub fn new() -> (store: SessionStore)
        ensures
            store.wf(),
            store.users() == Seq::<ActorId>::empty(),
            store@ == Map::<ActorId, SessionInfoView>::empty(),
    {
        let store = SessionStore { records: Vec::new() };
        assert(store.users() =~= Seq::<ActorId>::empty());
        assert(store@ =~= Map::<ActorId, SessionInfoView>::empty());
        store
    }

    /// Number of users that have a record.
    pub fn len(&self) -> (n: usize)
        ensures
            n == self.users().len(),
    {
        self.records.len()
    }

    /// Where the record of the user stands in the list, if the user has one.
    fn position(&self, user: &ActorId) -> (found: Option<usize>)
        ensures
            match found {
                Some(i) => i < self.records@.len() && self.records@[i as int].0 == *user,
                None => !self.users().contains(*user),
            },
    {
        let mut i: usize = 0;
        while i < self.records.len()
            invariant
                i <= self.records.len(),
                forall|j: int| 0 <= j < i ==> (#[trigger] self.users()[j]) != *user,
            decreases self.records.len() - i,
        {
            if self.records[i].0 == *user {
                return Some(i);
            }
            assert(self.users()[i as int] == self.records@[i as int].0);
            i += 1;
        }
        None
    }

    /// The record of the user, if the user has one.
    pub fn get(&self, user: &ActorId) -> (found: Option<&SessionInfo>)
        requires
            self.wf(),
        ensures
            match found {
                Some(info) => self@.contains_key(*user) && self@[*user] == info@,
                None => !self@.contains_key(*user),
            },
    {
        match self.position(user) {
            Some(i) => {
                proof {
                    lemma_listed_record(records_view(self.records@), i as int);
                }
                Some(&self.records[i].1)
            },
            None => None,
        }
    }

    /// Stores the record of the user, in place of the one that the user had,
    /// if any. A user that had none is listed after the others.
    pub fn insert(&mut self, user: ActorId, info: SessionInfo)
        requires
            old(self).wf(),
        ensures
            final(self).wf(),
            final(self)@ == old(self)@.insert(user, info@),
            final(self).users() == if old(self)@.contains_key(user) {
                old(self).users()
            } else {
                old(self).users().push(user)
            },
    {
        let ghost before = records_view(self.records@);
        match self.position(&user) {
            Some(i) => {
                proof {
                    lemma_listed_record(before, i as int);
                    lemma_update_record(before, i as int, info@);
                }
                self.records[i] = (user, info);
                assert(records_view(self.records@) =~= before.update(i as int, (user, info@)));
            },
            None => {
                proof {
                    lemma_push_record(before, user, info@);
                }
                self.records.push((user, info));
                assert(records_view(self.records@) =~= before.push((user, info@)));
            },
        }
    }

    /// A copy of all records, in the order of their users.
    pub fn to_vec(&self) -> (records: Vec<(ActorId, SessionInfo)>)
        requires
            self.wf(),
        ensures
            records_view(records@) == self.snapshot(),
    {
        let mut records: Vec<(ActorId, SessionInfo)> = Vec::new();
        let mut i: usize = 0;
        while i < self.records.len()
            invariant
                i <= self.records.len(),
                records@.len() == i,
                records_view(records@) == records_view(self.records@).take(i as int),
            decreases self.records.len() - i,
        {
            let ghost copied = records_view(records@);
            let copy = (self.records[i].0, self.records[i].1.clone());
            records.push(copy);
            proof {
                let next = records_view(records@);
                assert forall|j: int| 0 <= j < i + 1 implies next[j] == records_view(
                    self.records@,
                )[j] by {
                    if j < i {
                        assert(next[j] == copied[j]);
                    }
                }
                assert(next =~= records_view(self.records@).take(i + 1));
            }
            i += 1;
        }
        proof {
            let all = records_view(self.records@);
            assert(all.take(self.records.len() as int) =~= all);
            assert forall|j: int| 0 <= j < all.len() implies all[j] == self.snapshot()[j] by {
                lemma_listed_record(all, j);
            }
            assert(all =~= self.snapshot());
        }
        records
    }
}

} // verus!
