//! A repository that keeps its users in memory. Its state is modelled by a
//! map from identifier to user, together with the set of every identifier
//! it has ever handed out.
use crate::clock::now_micros;
use crate::date::date_from_text;
use crate::entity::{CreateUserPayload, UpdateUserPayload, User, UserView};
use crate::error::RepositoryError;
use crate::ident::{id_text, new_id, uuid_text};
use crate::outcome::{new_user, new_user_view, revised_user, revision};
use vstd::prelude::*;

verus! {

/// The values of a sequence of users.
pub open spec fn views(users: Seq<User>) -> Seq<UserView> {
    users.map_values(|u: User| u@)
}

/// `users` holds each user of `table` exactly once, and nothing else.
pub open spec fn lists_exactly(users: Seq<UserView>, table: Map<u128, UserView>) -> bool {
    &&& forall|i: int, j: int|
        0 <= i < j < users.len() ==> users[i].user_id != users[j].user_id
    &&& forall|i: int|
        0 <= i < users.len() ==> table.contains_key(users[i].user_id) && table[users[i].user_id]
            == users[i]
    &&& forall|id: u128|
        table.contains_key(id) ==> exists|i: int| 0 <= i < users.len() && users[i].user_id == id
}

/// The user that `table` holds under `id`, if any.
pub open spec fn lookup(table: Map<u128, UserView>, id: u128) -> Option<UserView> {
    if table.contains_key(id) {
        Some(table[id])
    } else {
        None
    }
}

/// An in-memory user repository.
pub struct MemoryUserRepository {
    rows: Vec<User>,
    issued_ids: Vec<u128>,
    table: Ghost<Map<u128, UserView>>,
    issued: Ghost<Set<u128>>,
}

impl MemoryUserRepository {
    /// The stored users, by identifier.
    pub closed spec fn table(&self) -> Map<u128, UserView> {
        self.table@
    }

    /// Every identifier that a successful creation has used.
    pub closed spec fn issued(&self) -> Set<u128> {
        self.issued@
    }

    /// The rows hold exactly the users of the table; every stored user is
    /// valid, is stored under its own identifier, and had that identifier
    /// issued by a creation.
    pub closed spec fn wf(&self) -> bool {
        &&& lists_exactly(views(self.rows@), self.table@)
        &&& forall|id: u128|
            #[trigger] self.table@.contains_key(id) ==> {
                &&& self.table@[id].user_id == id
                &&& self.table@[id].is_valid()
                &&& self.issued@.contains(id)
            }
        &&& forall|id: u128|
            #[trigger] self.issued@.contains(id) <==> exists|k: int|
                0 <= k < self.issued_ids@.len() && self.issued_ids@[k] == id
    }

    /// An empty repository.
    pub fn new() -> (r: MemoryUserRepository)
        ensures
            r.wf(),
            r.table() == Map::<u128, UserView>::empty(),
            r.issued() == Set::<u128>::empty(),
    {
        MemoryUserRepository {
            rows: Vec::new(),
            issued_ids: Vec::new(),
            table: Ghost(Map::empty()), issued: Ghost(Set::empty()) }
    }

    /// Where the row of `user_id` stands, if there is one.
    fn position(&self, user_id: u128) -> (r: Option<usize>)
        requires
            self.wf(),
        ensures
            r matches Some(i) ==> i < self.rows@.len() && self.rows@[i as int].user_id == user_id
                && self.table().contains_key(user_id),
            r is None ==> !self.table().contains_key(user_id),
    {
        let mut i: usize = 0;
        while i < self.rows.len()
            invariant
                self.wf(),
                i <= self.rows@.len(),
                forall|k: int| 0 <= k < i ==> self.rows@[k].user_id != user_id,
            decreases self.rows@.len() - i,
        {
            if self.rows[i].user_id == user_id {
                assert(views(self.rows@)[i as int].user_id == user_id);
                return Some(i);
            }
            i = i + 1;
        }
        proof {
            if self.table@.contains_key(user_id) {
                let k = choose|k: int|
                    0 <= k < views(self.rows@).len() && views(self.rows@)[k].user_id == user_id;
                assert(self.rows@[k].user_id == user_id);
            }
        }
        None
    }

    /// Whether a creation has used `user_id`.
    fn was_issued(&self, user_id: u128) -> (r: bool)
        requires
            self.wf(),
        ensures
            r == self.issued().contains(user_id),
    {
        let mut k: usize = 0;
        while k < self.issued_ids.len()
            invariant
                self.wf(),
                k <= self.issued_ids@.len(),
                forall|j: int| 0 <= j < k ==> self.issued_ids@[j] != user_id,
            decreases self.issued_ids@.len() - k,
        {
            if self.issued_ids[k] == user_id {
                return true;
            }
            k = k + 1;
        }
        false
    }

    /// The user with identifier `user_id`, or `NotFound` for it.
    pub fn find(&self, user_id: u128) -> (r: Result<User, RepositoryError>)
        requires
            self.wf(),
        ensures
            self.table().contains_key(user_id) ==> (r matches Ok(u) && u@ == self.table()[user_id]),
            !self.table().contains_key(user_id) ==> (r matches Err(e) && e.is_not_found_for(user_id)),
    {
        match self.position(user_id) {
            Some(i) => {
                assert(views(self.rows@)[i as int] == self.rows@[i as int]@);
                Ok(self.rows[i].clone())
            },
            None => Err(RepositoryError::NotFound(id_text(user_id))),
        }
    }

    /// Every stored user, each once, in the order of creation. Never fails.
    pub fn all(&self) -> (r: Result<Vec<User>, RepositoryError>)
        requires
            self.wf(),
        ensures
            r matches Ok(v) && lists_exactly(views(v@), self.table()),
    {
        let mut out: Vec<User> = Vec::new();
        let mut i: usize = 0;
        while i < self.rows.len()
            invariant
                i <= self.rows@.len(),
                views(out@) =~= views(self.rows@).subrange(0, i as int),
            decreases self.rows@.len() - i,
        {
            let u = self.rows[i].clone();
            proof {
                assert(views(out@.push(u)) =~= views(out@).push(u@));
                assert(views(self.rows@)[i as int] == u@);
            }
            out.push(u);
            i = i + 1;
        }
        assert(views(out@) =~= views(self.rows@));
        Ok(out)
    }

    /// Creates a user from `payload` under identifier `user_id` at clock
    /// reading `now`. A malformed birthday is a validation error; an
    /// identifier that an earlier creation used, even of a user since
    /// deleted, is an unexpected error: identifiers are never reused. On any
    /// error nothing changes.
    pub fn create_at(&mut self, payload: CreateUserPayload, user_id: u128, now: i64) -> (r: Result<User, RepositoryError>)
        requires
            old(self).wf(),
        ensures
            final(self).wf(),
            date_from_text(payload.birthday@) is None ==> (r matches Err(e) && e.is_validation_of(payload.birthday@)),
            date_from_text(payload.birthday@) is Some && old(self).issued().contains(user_id) ==> (r matches Err(RepositoryError::Unexpected(_))),
            date_from_text(payload.birthday@) matches Some(d) ==> (!old(self).issued().contains(user_id) ==> (r matches Ok(u)
                && u@ == new_user_view(payload.nickname@, d, user_id, now)
                && final(self).table() == old(self).table().insert(user_id, u@)
                && final(self).issued() == old(self).issued().insert(user_id))),
            r is Err ==> final(self).table() == old(self).table() && final(self).issued() == old(self).issued(),
    {
        let user = match new_user(payload, user_id, now) {
            Ok(u) => u,
            Err(e) => {
                return Err(e);
            },
        };
        if self.was_issued(user_id) {
            return Err(RepositoryError::Unexpected(String::from_str("the identifier was already issued")));
        }
        let stored = user.clone();
        proof {
            let old_rows = views(self.rows@);
            let new_rows = views(self.rows@.push(stored));
            assert(new_rows =~= old_rows.push(user@));
            assert forall|i: int| 0 <= i < old_rows.len() implies old_rows[i].user_id != user_id by {
                assert(self.table@.contains_key(old_rows[i].user_id));
            }
        }
        self.rows.push(stored);
        self.issued_ids.push(user_id);
        proof {
            self.table@ = self.table@.insert(user_id, user@);
            self.issued@ = self.issued@.insert(user_id);
            let rows = views(self.rows@);
            assert forall|id: u128| self.table@.contains_key(id) implies exists|i: int|
                0 <= i < rows.len() && rows[i].user_id == id by {
                if id == user_id {
                    assert(rows[rows.len() - 1].user_id == id);
                } else {
                    let k = choose|k: int| 0 <= k < rows.len() - 1 && views(old(self).rows@)[k].user_id == id;
                    assert(rows[k].user_id == id);
                }
            }
            let before = views(old(self).rows@);
            assert(rows =~= before.push(user@));
            let ids = self.issued_ids@;
            let old_ids = old(self).issued_ids@;
            assert(ids == old_ids.push(user_id));
            assert forall|id: u128| #[trigger] self.issued@.contains(id) <==> exists|k: int|
                0 <= k < ids.len() && ids[k] == id by {
                if id == user_id {
                    assert(ids[ids.len() - 1] == id);
                } else {
                    if old(self).issued@.contains(id) {
                        let k = choose|k: int| 0 <= k < old_ids.len() && old_ids[k] == id;
                        assert(ids[k] == id);
                    }
                    if exists|k: int| 0 <= k < ids.len() && ids[k] == id {
                        let k = choose|k: int| 0 <= k < ids.len() && ids[k] == id;
                        assert(old_ids[k] == id);
                        assert(old(self).issued@.contains(id));
                    }
                }
            }
        }
        Ok(user)
    }

    /// Creates a user from `payload`, under a fresh random identifier and at
    /// the current time. On success the identifier was never issued before;
    /// a validation error comes exactly from a malformed birthday; an
    /// unexpected error only from a random identifier that was issued
    /// before. On any error nothing changes.
    pub fn create(&mut self, payload: CreateUserPayload) -> (r: Result<User, RepositoryError>)
        requires
            old(self).wf(),
        ensures
            final(self).wf(),
            date_from_text(payload.birthday@) is None ==> (r matches Err(e) && e.is_validation_of(payload.birthday@)),
            date_from_text(payload.birthday@) is Some ==> (r is Ok || r matches Err(RepositoryError::Unexpected(_))),
            r matches Ok(u) ==> {
                &&& date_from_text(payload.birthday@) == Some(u.birthday)
                &&& u@ == new_user_view(payload.nickname@, u.birthday, u.user_id, u.created_at)
                &&& !old(self).issued().contains(u.user_id)
                &&& final(self).table() == old(self).table().insert(u.user_id, u@)
                &&& final(self).issued() == old(self).issued().insert(u.user_id)
            },
            r is Err ==> final(self).table() == old(self).table() && final(self).issued() == old(self).issued(),
    {
        let user_id = new_id();
        let now = now_micros();
        self.create_at(payload, user_id, now)
    }

    /// Replaces the mutable fields of the user `user_id` with those of
    /// `payload`, at clock reading `now`. An unknown identifier is
    /// `NotFound`; a payload naming another user, or a malformed birthday, is
    /// a validation error. On any error nothing changes.
    pub fn update_at(&mut self, user_id: u128, payload: UpdateUserPayload, now: i64) -> (r: Result<User, RepositoryError>)
        requires
            old(self).wf(),
        ensures
            final(self).wf(),
            final(self).issued() == old(self).issued(),
            !old(self).table().contains_key(user_id) ==> (r matches Err(e) && e.is_not_found_for(user_id)),
            old(self).table().contains_key(user_id) && payload.user_id != user_id ==> (r matches Err(e) && e.is_validation_of(uuid_text(payload.user_id))),
            old(self).table().contains_key(user_id) && payload.user_id == user_id && date_from_text(payload.birthday@) is None ==> (r matches Err(e) && e.is_validation_of(payload.birthday@)),
            old(self).table().contains_key(user_id) && payload.user_id == user_id ==> (date_from_text(payload.birthday@) matches Some(d) ==> (r matches Ok(u)
                && u@ == revision(old(self).table()[user_id], payload.nickname@, d, now)
                && final(self).table() == old(self).table().insert(user_id, u@))),
            r is Err ==> final(self).table() == old(self).table(),
    {
        let i = match self.position(user_id) {
            Some(i) => i,
            None => {
                return Err(RepositoryError::NotFound(id_text(user_id)));
            },
        };
        assert(views(self.rows@)[i as int] == self.rows@[i as int]@);
        let user = match revised_user(&self.rows[i], payload, now) {
            Ok(u) => u,
            Err(e) => {
                return Err(e);
            },
        };
        let stored = user.clone();
        proof {
            assert(views(self.rows@.update(i as int, stored)) =~= views(self.rows@).update(i as int, user@));
        }
        self.rows.set(i, stored);
        proof {
            self.table@ = self.table@.insert(user_id, user@);
            let rows = views(self.rows@);
            let before = views(old(self).rows@);
            assert forall|k: int| 0 <= k < rows.len() && k != i implies rows[k].user_id != user_id by {
                assert(before[k].user_id != before[i as int].user_id);
            }
            assert forall|id: u128| self.table@.contains_key(id) implies exists|k: int|
                0 <= k < rows.len() && rows[k].user_id == id by {
                let k = choose|k: int| 0 <= k < before.len() && before[k].user_id == id;
                assert(rows[k].user_id == id);
            }
            assert(self.issued_ids@ == old(self).issued_ids@);
            assert(self.issued@ == old(self).issued@);
        }
        Ok(user)
    }

    /// Replaces the mutable fields of the user `user_id` with those of
    /// `payload`, at the current time, with the errors of `update_at`. The
    /// identity and creation time stay; the last-change stamp moves forward.
    pub fn update(&mut self, user_id: u128, payload: UpdateUserPayload) -> (r: Result<User, RepositoryError>)
        requires
            old(self).wf(),
        ensures
            final(self).wf(),
            final(self).issued() == old(self).issued(),
            !old(self).table().contains_key(user_id) ==> (r matches Err(e) && e.is_not_found_for(user_id)),
            old(self).table().contains_key(user_id) && payload.user_id != user_id ==> (r matches Err(e) && e.is_validation_of(uuid_text(payload.user_id))),
            old(self).table().contains_key(user_id) && payload.user_id == user_id && date_from_text(payload.birthday@) is None ==> (r matches Err(e) && e.is_validation_of(payload.birthday@)),
            old(self).table().contains_key(user_id) && payload.user_id == user_id && date_from_text(payload.birthday@) is Some ==> r is Ok,
            r matches Ok(u) ==> {
                let prior = old(self).table()[user_id];
                &&& old(self).table().contains_key(user_id)
                &&& date_from_text(payload.birthday@) == Some(u.birthday)
                &&& u.user_id == user_id
                &&& u.nickname@ == payload.nickname@
                &&& u.created_at == prior.created_at
                &&& u.updated_at >= prior.updated_at
                &&& (prior.updated_at < i64::MAX ==> u.updated_at > prior.updated_at)
                &&& final(self).table() == old(self).table().insert(user_id, u@)
            },
            r is Err ==> final(self).table() == old(self).table(),
    {
        let now = now_micros();
        self.update_at(user_id, payload, now)
    }

    /// Removes the user `user_id`; an unknown identifier is `NotFound` and
    /// changes nothing.
    pub fn delete(&mut self, user_id: u128) -> (r: Result<(), RepositoryError>)
        requires
            old(self).wf(),
        ensures
            final(self).wf(),
            final(self).issued() == old(self).issued(),
            old(self).table().contains_key(user_id) ==> r is Ok && final(self).table() == old(self).table().remove(user_id),
            !old(self).table().contains_key(user_id) ==> (r matches Err(e) && e.is_not_found_for(user_id)),
            !old(self).table().contains_key(user_id) ==> final(self).table() == old(self).table(),
    {
        let i = match self.position(user_id) {
            Some(i) => i,
            None => {
                return Err(RepositoryError::NotFound(id_text(user_id)));
            },
        };
        proof {
            assert(views(self.rows@.remove(i as int)) =~= views(self.rows@).remove(i as int));
        }
        self.rows.remove(i);
        proof {
            self.table@ = self.table@.remove(user_id);
            let rows = views(self.rows@);
            let before = views(old(self).rows@);
            assert(before[i as int].user_id == user_id);
            assert forall|k: int| 0 <= k < rows.len() implies rows[k].user_id != user_id by {
                if k < i {
                    assert(before[k].user_id != before[i as int].user_id);
                } else {
                    assert(before[k + 1].user_id != before[i as int].user_id);
                }
            }
            assert forall|id: u128| self.table@.contains_key(id) implies exists|k: int|
                0 <= k < rows.len() && rows[k].user_id == id by {
                let k = choose|k: int| 0 <= k < before.len() && before[k].user_id == id;
                if k < i {
                    assert(rows[k].user_id == id);
                } else {
                    assert(rows[k - 1].user_id == id);
                }
            }
            assert(self.issued_ids@ == old(self).issued_ids@);
            assert(self.issued@ == old(self).issued@);
        }
        Ok(())
    }
}

/// An identifier that no creation has used names no stored user, so that
/// `find` and `delete` both answer `NotFound` for it.
pub proof fn law_unissued_is_absent(repository: MemoryUserRepository, user_id: u128)
    requires
        repository.wf(),
        !repository.issued().contains(user_id),
    ensures
        lookup(repository.table(), user_id) is None,
{
}

/// Every stored user is valid (a real birthday, created no later than last
/// changed), is stored under its own identifier, and has an identifier that
/// a creation issued.
pub proof fn lemma_stored_users_are_valid(repository: MemoryUserRepository, user_id: u128)
    requires
        repository.wf(),
        repository.table().contains_key(user_id),
    ensures
        repository.table()[user_id].is_valid(),
        repository.table()[user_id].user_id == user_id,
        repository.issued().contains(user_id),
{
}

} // verus!
