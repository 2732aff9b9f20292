use wishlist::auth::{
    create_user_session, destroy_user_session, session_cookie, start_user_session,
};
use wishlist::db::StorageError;
use wishlist::models::user_session::{expired, SESSION_MAX_AGE};
use wishlist::util::{random_key, random_token};
use wishlist::{DataError, LoggedInUser, SameSite, User, UserSession, WishlistDb};

const DAY: i64 = 86_400;
const T0: i64 = 1_700_000_000;

fn db_with_user() -> (WishlistDb, User) {
    let mut db = WishlistDb::new();
    User::create(&mut db, "sam", "sam@example.com", "hash").unwrap();
    let user = User::find_by_username(&db, "sam").unwrap();
    (db, user)
}

#[test]
fn session_round_trip() {
    let (mut db, user) = db_with_user();
    let (session, cookie) = start_user_session(&mut db, user.id, "tok123".to_string(), T0).unwrap();
    assert_eq!(session.user_id, user.id);
    assert_eq!(cookie.value, "tok123");
    let who = LoggedInUser::from_session(&db, Some("tok123"), T0 + DAY).unwrap();
    assert_eq!(who.user.id, user.id);
    assert_eq!(who.user.username, "sam");
    // resolving twice gives the same answer and changes nothing
    let again = LoggedInUser::from_session(&db, Some("tok123"), T0 + DAY).unwrap();
    assert_eq!(again.user.id, user.id);
    assert_eq!(destroy_user_session(&mut db, Some("tok123")).unwrap(), true);
    assert!(LoggedInUser::from_session(&db, Some("tok123"), T0 + DAY).is_none());
    assert!(UserSession::find_by_token(&db, "tok123", T0 + DAY).unwrap().is_none());
}

#[test]
fn no_cookie_or_unknown_token_resolves_to_no_one() {
    let (mut db, user) = db_with_user();
    start_user_session(&mut db, user.id, "known".to_string(), T0).unwrap();
    assert!(LoggedInUser::from_session(&db, None, T0).is_none());
    assert!(LoggedInUser::from_session(&db, Some("unknown"), T0).is_none());
}

#[test]
fn logout_without_cookie_is_a_no_op() {
    let (mut db, user) = db_with_user();
    start_user_session(&mut db, user.id, "stay".to_string(), T0).unwrap();
    assert_eq!(destroy_user_session(&mut db, None).unwrap(), false);
    assert!(LoggedInUser::from_session(&db, Some("stay"), T0).is_some());
}

#[test]
fn session_eight_days_old_is_absent_and_purged() {
    let (mut db, user) = db_with_user();
    start_user_session(&mut db, user.id, "old".to_string(), T0).unwrap();
    start_user_session(&mut db, user.id, "fresh".to_string(), T0 + 6 * DAY).unwrap();
    let now = T0 + 8 * DAY;
    assert!(LoggedInUser::from_session(&db, Some("old"), now).is_none());
    // not yet purged: still stored, yet the lookup treats it as absent
    assert_eq!(UserSession::count(&db), 2);
    assert!(UserSession::find_by_token(&db, "old", now).unwrap().is_none());
    assert!(UserSession::find_by_token(&db, "old", T0).unwrap().is_some());
    UserSession::destroy_outdated_at(&mut db, now).unwrap();
    assert_eq!(UserSession::count(&db), 1);
    assert!(UserSession::find_by_token(&db, "old", T0).unwrap().is_none());
    assert!(UserSession::find_by_token(&db, "fresh", now).unwrap().is_some());
    assert!(LoggedInUser::from_session(&db, Some("fresh"), now).is_some());
}

#[test]
fn seven_days_exactly_is_still_valid() {
    let (mut db, user) = db_with_user();
    start_user_session(&mut db, user.id, "edge".to_string(), T0).unwrap();
    assert!(LoggedInUser::from_session(&db, Some("edge"), T0 + SESSION_MAX_AGE).is_some());
    assert!(LoggedInUser::from_session(&db, Some("edge"), T0 + SESSION_MAX_AGE + 1).is_none());
    assert!(!expired(T0, T0 + 7 * DAY));
    assert!(expired(T0, T0 + 7 * DAY + 1));
    assert!(!expired(0, i64::MIN));
    assert!(expired(i64::MIN, i64::MAX));
}

#[test]
fn session_cookie_attributes() {
    let c = session_cookie("abc");
    assert_eq!(c.name, "session_id");
    assert_eq!(c.value, "abc");
    assert_eq!(c.path, "/");
    assert!(c.http_only);
    assert_eq!(c.same_site, SameSite::Strict);
    assert_eq!(c.max_age, 604_800);
}

#[test]
fn created_session_uses_a_random_token_and_resolves_now() {
    let (mut db, user) = db_with_user();
    let (a, cookie) = create_user_session(&mut db, &user).unwrap();
    let (b, _) = create_user_session(&mut db, &user).unwrap();
    assert_eq!(a.token.len(), 32);
    assert!(a.token.chars().all(|c| c.is_ascii_alphanumeric()));
    assert_ne!(a.token, b.token);
    assert_eq!(cookie.value, a.token);
    let who = LoggedInUser::from_cookie(&db, Some(&a.token)).unwrap();
    assert_eq!(who.user.id, user.id);
    UserSession::destroy_outdated(&mut db).unwrap();
    assert!(UserSession::find_by_token(&db, &a.token, a.created_at).unwrap().is_some());
}

#[test]
fn session_store_errors() {
    let (mut db, user) = db_with_user();
    start_user_session(&mut db, user.id, "dup".to_string(), T0).unwrap();
    assert!(matches!(
        start_user_session(&mut db, user.id, "dup".to_string(), T0),
        Err(DataError::Storage(StorageError::DuplicateToken))
    ));
    assert!(matches!(
        UserSession::create(&mut db, "other", 999),
        Err(DataError::Storage(StorageError::MissingUser))
    ));
}

#[test]
fn deleting_a_user_deletes_its_sessions() {
    let (mut db, mut user) = db_with_user();
    start_user_session(&mut db, user.id, "gone".to_string(), T0).unwrap();
    user.destroy(&mut db).unwrap();
    assert!(UserSession::find_by_token(&db, "gone", T0).unwrap().is_none());
    assert!(LoggedInUser::from_session(&db, Some("gone"), T0).is_none());
    assert_eq!(User::count(&db), 0);
}

#[test]
fn tokens_are_long_alphanumeric_and_differ() {
    let a = random_token();
    let b = random_key();
    assert_eq!(a.len(), 32);
    assert_eq!(b.len(), 32);
    assert!(a.chars().chain(b.chars()).all(|c| c.is_ascii_alphanumeric()));
    assert_ne!(a, b);
}

#[test]
fn logged_in_user_wraps_the_user() {
    let u = User::new("w".to_string(), "e".to_string(), "h".to_string());
    assert_eq!(LoggedInUser::new(u).user.username, "w");
}

#[test]
fn restored_session_keeps_id_token_and_time() {
    let (mut db, user) = db_with_user();
    let s = UserSession {
        id: 7,
        token: "kept".to_string(),
        user_id: user.id,
        created_at: T0,
        updated_at: T0,
    };
    let back = s.restore(&mut db).unwrap();
    assert_eq!(back.id, 7);
    assert_eq!(back.created_at, T0);
    assert!(LoggedInUser::from_session(&db, Some("kept"), T0 + DAY).is_some());
    let early = UserSession {
        id: 3,
        token: "late".to_string(),
        user_id: user.id,
        created_at: T0,
        updated_at: T0,
    };
    assert!(matches!(
        early.restore(&mut db),
        Err(DataError::Storage(StorageError::IdOutOfOrder))
    ));
}
