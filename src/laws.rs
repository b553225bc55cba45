//! Properties that hold across several repository operations, stated over
//! the map model that the operations' contracts use.
use crate::date::{date_from_text, Date};
use crate::entity::UserView;
use crate::memory::{lists_exactly, lookup};
use crate::outcome::{new_user_view, revision};
use vstd::prelude::*;

verus! {

/// Looking up the identifier that a successful creation used gives back
/// exactly the user that the creation returned.
pub proof fn law_create_then_find(
    before: Map<u128, UserView>,
    nickname: Seq<char>,
    birthday_text: Seq<char>,
    user_id: u128,
    now: i64,
)
    requires
        date_from_text(birthday_text) is Some,
        !before.contains_key(user_id),
    ensures
        ({
            let created = new_user_view(nickname, date_from_text(birthday_text)->0, user_id, now);
            lookup(before.insert(user_id, created), user_id) == Some(created)
        }),
{
}

/// Listing an empty store gives an empty sequence.
pub proof fn law_all_of_empty(users: Seq<UserView>)
    requires
        lists_exactly(users, Map::<u128, UserView>::empty()),
    ensures
        users.len() == 0,
{
    if users.len() > 0 {
        assert(Map::<u128, UserView>::empty().contains_key(users[0].user_id));
    }
}

/// After a successful update, looking the user up gives the new mutable
/// fields, the same identity and creation time, and a last-change stamp no
/// earlier than before.
pub proof fn law_update_then_find(
    before: Map<u128, UserView>,
    user_id: u128,
    nickname: Seq<char>,
    birthday: Date,
    now: i64,
)
    requires
        before.contains_key(user_id),
    ensures
        ({
            let prior = before[user_id];
            let after = before.insert(user_id, revision(prior, nickname, birthday, now));
            lookup(after, user_id) matches Some(u) && {
                &&& u.nickname == nickname
                &&& u.birthday == birthday
                &&& u.user_id == prior.user_id
                &&& u.created_at == prior.created_at
                &&& u.updated_at >= prior.updated_at
            }
        }),
{
}

/// After a successful delete the identifier names no stored user, so that
/// a later `find` and a second `delete` both answer `NotFound`.
pub proof fn law_delete_then_find(before: Map<u128, UserView>, user_id: u128)
    requires
        before.contains_key(user_id),
    ensures
        lookup(before.remove(user_id), user_id) is None,
{
}

} // verus!
