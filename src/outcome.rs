//! The decisions of a repository backed by a row store, as functions of the
//! store's answers: what a new or revised row holds, and how each answer to
//! an insert, a select, an update or a delete becomes a typed result.
use crate::clock::{now_micros, refreshed_stamp};
use crate::date::{date_from_text, parse_date, Date};
use crate::entity::{CreateUserPayload, UpdateUserPayload, User, UserView};
use crate::error::RepositoryError;
use crate::ident::{id_text, new_id, uuid_text};
use vstd::prelude::*;

verus! {

/// The stamp that `refreshed_stamp` gives.
pub open spec fn stamp_after(previous: i64, now: i64) -> i64 {
    if now > previous {
        now
    } else if previous < i64::MAX {
        (previous + 1) as i64
    } else {
        previous
    }
}

/// The user that creation with identifier `user_id` at clock reading `now`
/// yields: both timestamps are `now`.
pub open spec fn new_user_view(nickname: Seq<char>, birthday: Date, user_id: u128, now: i64) -> UserView {
    UserView { user_id, nickname, birthday, created_at: now, updated_at: now }
}

/// The user that an update at clock reading `now` makes of `prior`: new
/// mutable fields, the same identity and creation time, a refreshed stamp.
pub open spec fn revision(prior: UserView, nickname: Seq<char>, birthday: Date, now: i64) -> UserView {
    UserView {
        user_id: prior.user_id,
        nickname,
        birthday,
        created_at: prior.created_at,
        updated_at: stamp_after(prior.updated_at, now),
    }
}

/// The user that creating from `payload` gives once its birthday text was
/// parsed to `birthday`; a text that did not parse is a validation error.
pub fn user_from_parsed(payload: CreateUserPayload, birthday: Option<Date>, user_id: u128, now: i64) -> (r: Result<User, RepositoryError>)
    ensures
        birthday is None ==> (r matches Err(e) && e.is_validation_of(payload.birthday@)),
        birthday matches Some(d) ==> (r matches Ok(u) && u@ == new_user_view(payload.nickname@, d, user_id, now)),
{
    match birthday {
        None => Err(RepositoryError::Validation(payload.birthday)),
        Some(d) => Ok(User {
            user_id,
            nickname: payload.nickname,
            birthday: d,
            created_at: now,
            updated_at: now,
        }),
    }
}

/// The user that creating from `payload` gives, with identifier `user_id` at
/// clock reading `now`, or a validation error for a malformed birthday.
pub fn new_user(payload: CreateUserPayload, user_id: u128, now: i64) -> (r: Result<User, RepositoryError>)
    ensures
        date_from_text(payload.birthday@) is None ==> (r matches Err(e) && e.is_validation_of(payload.birthday@)),
        date_from_text(payload.birthday@) matches Some(d) ==> (r matches Ok(u) && u@ == new_user_view(payload.nickname@, d, user_id, now)),
        r matches Ok(u) ==> u@.is_valid(),
{
    let birthday = parse_date(payload.birthday.as_str());
    user_from_parsed(payload, birthday, user_id, now)
}

/// The row that creating from `payload` writes: a fresh random identifier
/// and the current time in both stamps, or a validation error for a
/// malformed birthday.
pub fn draft_user(payload: CreateUserPayload) -> (r: Result<User, RepositoryError>)
    ensures
        date_from_text(payload.birthday@) is None ==> (r matches Err(e) && e.is_validation_of(payload.birthday@)),
        date_from_text(payload.birthday@) is Some ==> r is Ok,
        r matches Ok(u) ==> date_from_text(payload.birthday@) == Some(u.birthday)
            && u@ == new_user_view(payload.nickname@, u.birthday, u.user_id, u.created_at)
            && u@.is_valid(),
{
    let user_id = new_id();
    let now = now_micros();
    new_user(payload, user_id, now)
}

/// The user that updating `current` with `payload` at clock reading `now`
/// gives, once the payload's birthday text was parsed to `birthday`. A
/// payload naming another user, or a birthday that did not parse, is a
/// validation error (in that order).
pub fn revision_from_parsed(current: &User, payload: UpdateUserPayload, birthday: Option<Date>, now: i64) -> (r: Result<User, RepositoryError>)
    ensures
        payload.user_id != current.user_id ==> (r matches Err(e) && e.is_validation_of(uuid_text(payload.user_id))),
        payload.user_id == current.user_id && birthday is None ==> (r matches Err(e) && e.is_validation_of(payload.birthday@)),
        payload.user_id == current.user_id ==> (birthday matches Some(d) ==> (r matches Ok(u) && u@ == revision(current@, payload.nickname@, d, now))),
{
    if payload.user_id != current.user_id {
        return Err(RepositoryError::Validation(id_text(payload.user_id)));
    }
    match birthday {
        None => Err(RepositoryError::Validation(payload.birthday)),
        Some(d) => Ok(User {
            user_id: current.user_id,
            nickname: payload.nickname,
            birthday: d,
            created_at: current.created_at,
            updated_at: refreshed_stamp(current.updated_at, now),
        }),
    }
}

/// The user that updating `current` with `payload` at clock reading `now`
/// gives, or the validation error that `revision_from_parsed` describes.
pub fn revised_user(current: &User, payload: UpdateUserPayload, now: i64) -> (r: Result<User, RepositoryError>)
    ensures
        payload.user_id != current.user_id ==> (r matches Err(e) && e.is_validation_of(uuid_text(payload.user_id))),
        payload.user_id == current.user_id && date_from_text(payload.birthday@) is None ==> (r matches Err(e) && e.is_validation_of(payload.birthday@)),
        payload.user_id == current.user_id ==> (date_from_text(payload.birthday@) matches Some(d) ==> (r matches Ok(u) && u@ == revision(current@, payload.nickname@, d, now))),
        current@.is_valid() ==> (r matches Ok(u) ==> u@.is_valid()),
{
    let birthday = parse_date(payload.birthday.as_str());
    revision_from_parsed(current, payload, birthday, now)
}

/// The row that updating `current` with `payload` at the current time
/// writes, or the validation error that `revision_from_parsed` describes.
/// The last-change stamp moves forward.
pub fn draft_revision(current: &User, payload: UpdateUserPayload) -> (r: Result<User, RepositoryError>)
    ensures
        payload.user_id != current.user_id ==> (r matches Err(e) && e.is_validation_of(uuid_text(payload.user_id))),
        payload.user_id == current.user_id && date_from_text(payload.birthday@) is None ==> (r matches Err(e) && e.is_validation_of(payload.birthday@)),
        payload.user_id == current.user_id && date_from_text(payload.birthday@) is Some ==> r is Ok,
        r matches Ok(u) ==> {
            &&& date_from_text(payload.birthday@) == Some(u.birthday)
            &&& u.user_id == current.user_id
            &&& u.nickname@ == payload.nickname@
            &&& u.created_at == current.created_at
            &&& u.updated_at >= current.updated_at
            &&& (current.updated_at < i64::MAX ==> u.updated_at > current.updated_at)
        },
{
    let now = now_micros();
    revised_user(current, payload, now)
}

/// The result of inserting `user`, given the number of rows that the insert
/// affected or the store's fault: success only when exactly one row was
/// written.
pub fn inserted(user: User, outcome: Result<u64, String>) -> (r: Result<User, RepositoryError>)
    ensures
        outcome == Ok::<u64, String>(1) ==> (r matches Ok(u) && u@ == user@),
        outcome matches Ok(n) && n != 1 ==> (r matches Err(RepositoryError::Unexpected(_))),
        outcome matches Err(m) ==> (r matches Err(RepositoryError::Unexpected(t)) && t@ == m@),
{
    match outcome {
        Ok(n) => {
            if n == 1 {
                Ok(user)
            } else {
                Err(RepositoryError::Unexpected(String::from_str("the insert did not write exactly one row")))
            }
        },
        Err(m) => Err(RepositoryError::Unexpected(m)),
    }
}

/// The result of selecting (or updating and returning) the row of `user_id`,
/// given the row the store returned, if any, or its fault.
pub fn fetched(user_id: u128, outcome: Result<Option<User>, String>) -> (r: Result<User, RepositoryError>)
    ensures
        outcome matches Ok(Some(v)) ==> (r matches Ok(u) && u@ == v@),
        outcome matches Ok(None) ==> (r matches Err(e) && e.is_not_found_for(user_id)),
        outcome matches Err(m) ==> (r matches Err(RepositoryError::Unexpected(t)) && t@ == m@),
{
    match outcome {
        Ok(Some(u)) => Ok(u),
        Ok(None) => Err(RepositoryError::NotFound(id_text(user_id))),
        Err(m) => Err(RepositoryError::Unexpected(m)),
    }
}

/// The result of deleting the row of `user_id`, given the number of rows the
/// delete affected or the store's fault: no row affected means not found.
pub fn deleted(user_id: u128, outcome: Result<u64, String>) -> (r: Result<(), RepositoryError>)
    ensures
        outcome matches Ok(n) && n > 0 ==> r is Ok,
        outcome == Ok::<u64, String>(0) ==> (r matches Err(e) && e.is_not_found_for(user_id)),
        outcome matches Err(m) ==> (r matches Err(RepositoryError::Unexpected(t)) && t@ == m@),
{
    match outcome {
        Ok(n) => {
            if n == 0 {
                Err(RepositoryError::NotFound(id_text(user_id)))
            } else {
                Ok(())
            }
        },
        Err(m) => Err(RepositoryError::Unexpected(m)),
    }
}

/// The result of selecting every row, given the rows or the store's fault;
/// no rows is an empty list, not an error.
pub fn listed(outcome: Result<Vec<User>, String>) -> (r: Result<Vec<User>, RepositoryError>)
    ensures
        outcome matches Ok(v) ==> (r matches Ok(w) && w@ == v@),
        outcome matches Err(m) ==> (r matches Err(RepositoryError::Unexpected(t)) && t@ == m@),
{
    match outcome {
        Ok(v) => Ok(v),
        Err(m) => Err(RepositoryError::Unexpected(m)),
    }
}

} // verus!
