use user_repo::clock::refreshed_stamp;
use user_repo::date::Date;
use user_repo::entity::{CreateUserPayload, Todo, UpdateUserPayload, User};
use user_repo::error::RepositoryError;
use user_repo::ident::id_text;
use user_repo::outcome::{
    deleted, fetched, inserted, listed, new_user, revised_user, revision_from_parsed,
    user_from_parsed,
};

fn sample_user() -> User {
    User {
        user_id: 9,
        nickname: "Kim".to_string(),
        birthday: Date { year: 1988, month: 8, day: 18 },
        created_at: 100,
        updated_at: 200,
    }
}

#[test]
fn id_text_is_hyphenated_lower_hex() {
    assert_eq!(
        id_text(0x67e5_5044_10b1_426f_9247_bb68_0e5f_e0c8),
        "67e55044-10b1-426f-9247-bb680e5fe0c8"
    );
    assert_eq!(id_text(0), "00000000-0000-0000-0000-000000000000");
    assert_eq!(id_text(9), "00000000-0000-0000-0000-000000000009");
}

#[test]
fn refreshed_stamp_moves_forward() {
    assert_eq!(refreshed_stamp(10, 50), 50);
    assert_eq!(refreshed_stamp(10, 10), 11);
    assert_eq!(refreshed_stamp(10, 3), 11);
    assert_eq!(refreshed_stamp(i64::MAX, 3), i64::MAX);
}

#[test]
fn new_user_parses_the_birthday() {
    let payload =
        CreateUserPayload { nickname: "Lee".to_string(), birthday: "2000-12-31".to_string() };
    let u = new_user(payload, 5, 77).unwrap();
    assert_eq!(u.birthday, Date { year: 2000, month: 12, day: 31 });
    assert_eq!((u.user_id, u.created_at, u.updated_at), (5, 77, 77));
    let bad = CreateUserPayload { nickname: "Lee".to_string(), birthday: "2000-1-1x".to_string() };
    assert!(matches!(new_user(bad, 5, 77), Err(RepositoryError::Validation(_))));
}

#[test]
fn user_from_parsed_follows_the_parse_result() {
    let payload = CreateUserPayload { nickname: "Max".to_string(), birthday: "zz".to_string() };
    match user_from_parsed(payload, None, 1, 2) {
        Err(RepositoryError::Validation(text)) => assert_eq!(text, "zz"),
        other => panic!("unexpected {:?}", other),
    }
    let payload = CreateUserPayload { nickname: "Max".to_string(), birthday: "zz".to_string() };
    let d = Date { year: 1977, month: 7, day: 7 };
    let u = user_from_parsed(payload, Some(d), 1, 2).unwrap();
    assert_eq!(u.nickname, "Max");
    assert_eq!(u.birthday, d);
}

#[test]
fn revision_keeps_identity_and_refreshes_stamp() {
    let current = sample_user();
    let payload = UpdateUserPayload {
        user_id: 9,
        nickname: "Kimberly".to_string(),
        birthday: "1989-09-19".to_string(),
    };
    let u = revised_user(&current, payload, 150).unwrap();
    assert_eq!(u.user_id, 9);
    assert_eq!(u.nickname, "Kimberly");
    assert_eq!(u.birthday, Date { year: 1989, month: 9, day: 19 });
    assert_eq!(u.created_at, 100);
    assert_eq!(u.updated_at, 201);

    let other =
        UpdateUserPayload { user_id: 8, nickname: "K".to_string(), birthday: "x".to_string() };
    match revision_from_parsed(&current, other, None, 300) {
        Err(RepositoryError::Validation(text)) => {
            assert_eq!(text, "00000000-0000-0000-0000-000000000008")
        }
        r => panic!("unexpected {:?}", r),
    }
}

#[test]
fn inserted_needs_exactly_one_row() {
    assert_eq!(inserted(sample_user(), Ok(1)).unwrap(), sample_user());
    assert!(matches!(inserted(sample_user(), Ok(0)), Err(RepositoryError::Unexpected(_))));
    assert!(matches!(inserted(sample_user(), Ok(2)), Err(RepositoryError::Unexpected(_))));
    match inserted(sample_user(), Err("connection lost".to_string())) {
        Err(RepositoryError::Unexpected(m)) => assert_eq!(m, "connection lost"),
        r => panic!("unexpected {:?}", r),
    }
}

#[test]
fn fetched_maps_missing_row_to_not_found() {
    assert_eq!(fetched(9, Ok(Some(sample_user()))).unwrap(), sample_user());
    match fetched(9, Ok(None)) {
        Err(RepositoryError::NotFound(t)) => assert_eq!(t, "00000000-0000-0000-0000-000000000009"),
        r => panic!("unexpected {:?}", r),
    }
    assert!(matches!(fetched(9, Err("boom".to_string())), Err(RepositoryError::Unexpected(_))));
}

#[test]
fn deleted_maps_zero_rows_to_not_found() {
    assert!(deleted(9, Ok(1)).is_ok());
    match deleted(9, Ok(0)) {
        Err(RepositoryError::NotFound(t)) => assert_eq!(t, "00000000-0000-0000-0000-000000000009"),
        r => panic!("unexpected {:?}", r),
    }
    match deleted(9, Err("boom".to_string())) {
        Err(RepositoryError::Unexpected(m)) => assert_eq!(m, "boom"),
        r => panic!("unexpected {:?}", r),
    }
}

#[test]
fn listed_keeps_rows_and_empty_is_ok() {
    assert!(listed(Ok(vec![])).unwrap().is_empty());
    assert_eq!(listed(Ok(vec![sample_user()])).unwrap(), vec![sample_user()]);
    assert!(matches!(listed(Err("boom".to_string())), Err(RepositoryError::Unexpected(_))));
}

#[test]
fn new_todo_starts_enabled() {
    let t = Todo::new(1, 2, "write tests".to_string(), 99);
    assert_eq!(t.status, "enable");
    assert_eq!(t.title, "write tests");
    assert_eq!((t.todo_id, t.user_id), (1, 2));
    assert_eq!((t.published_at, t.edited_at, t.created_at, t.updated_at), (99, 99, 99, 99));
}
