use crate::date::Date;
use vstd::prelude::*;

verus! {

/// An account. The identifier and both timestamps (microseconds since the
/// Unix epoch, UTC) are set by the repository, never by the caller.
#[derive(Debug)]
pub struct User {
    pub user_id: u128,
    pub nickname: String,
    pub birthday: Date,
    pub created_at: i64,
    pub updated_at: i64,
}

/// The mathematical value of a `User`.
pub ghost struct UserView {
    pub user_id: u128,
    pub nickname: Seq<char>,
    pub birthday: Date,
    pub created_at: i64,
    pub updated_at: i64,
}

impl View for User {
    type V = UserView;

    open spec fn view(&self) -> UserView {
        UserView {
            user_id: self.user_id,
            nickname: self.nickname@,
            birthday: self.birthday,
            created_at: self.created_at,
            updated_at: self.updated_at,
        }
    }
}

impl UserView {
    /// What every stored user satisfies: a real birthday, and a last change
    /// no earlier than the creation.
    pub open spec fn is_valid(self) -> bool {
        self.birthday.is_valid() && self.created_at <= self.updated_at
    }
}

impl Clone for User {
    fn clone(&self) -> (r: User)
        ensures
            r@ == self@,
    {
        User {
            user_id: self.user_id,
            nickname: self.nickname.clone(),
            birthday: self.birthday,
            created_at: self.created_at,
            updated_at: self.updated_at,
        }
    }
}

impl PartialEq for User {
    fn eq(&self, other: &User) -> (r: bool) {
        self.user_id == other.user_id && self.nickname == other.nickname && self.birthday
            == other.birthday && self.created_at == other.created_at && self.updated_at
            == other.updated_at
    }
}

impl vstd::std_specs::cmp::PartialEqSpecImpl for User {
    open spec fn obeys_eq_spec() -> bool {
        true
    }

    open spec fn eq_spec(&self, other: &User) -> bool {
        self@ == other@
    }
}

impl Eq for User {

}

/// What a caller supplies to create a user; the birthday is `YYYY-MM-DD` text.
#[derive(Debug)]
pub struct CreateUserPayload {
    pub nickname: String,
    pub birthday: String,
}

/// The full set of mutable fields of a user, for the user it names; the
/// birthday is `YYYY-MM-DD` text.
#[derive(Debug)]
pub struct UpdateUserPayload {
    pub user_id: u128,
    pub nickname: String,
    pub birthday: String,
}

/// A task owned by a user. Timestamps are microseconds since the Unix epoch.
#[derive(Debug)]
pub struct Todo {
    pub todo_id: u128,
    pub user_id: u128,
    pub title: String,
    pub status: String,
    pub published_at: i64,
    pub edited_at: i64,
    pub created_at: i64,
    pub updated_at: i64,
}

/// What a caller supplies to create a todo.
#[derive(Debug)]
pub struct CreateTodoPayload {
    pub user_id: u128,
    pub title: String,
}

/// Replacement fields for a todo.
#[derive(Debug)]
pub struct UpdateTodoPayload {
    pub todo_id: u128,
    pub user_id: u128,
    pub title: String,
    pub status: String,
    pub edited_at: i64,
}

/// The status a new todo starts with.
pub open spec fn initial_status() -> Seq<char> {
    seq!['e', 'n', 'a', 'b', 'l', 'e']
}

impl Todo {
    /// A fresh todo: status `"enable"`, and every timestamp set to `now`.
    pub fn new(todo_id: u128, user_id: u128, title: String, now: i64) -> (r: Todo)
        ensures
            r.todo_id == todo_id,
            r.user_id == user_id,
            r.title@ == title@,
            r.status@ == initial_status(),
            r.published_at == now,
            r.edited_at == now,
            r.created_at == now,
            r.updated_at == now,
    {
        let status = String::from_str("enable");
        proof {
            reveal_strlit("enable");
        }
        Todo {
            todo_id,
            user_id,
            title,
            status,
            published_at: now,
            edited_at: now,
            created_at: now,
            updated_at: now,
        }
    }
}

} // verus!
