use wishlist::auth::{
    check_login, prepare_new_user, register_new_user, validate_password, verify_user_login,
    DEFAULT_COST,
};
use wishlist::db::StorageError;
use wishlist::{AuthError, DataError, NewUser, User, UserLogin, WishlistDb};

const COST: u32 = 4;

fn form(username: &str, password: &str, confirm: &str) -> NewUser {
    NewUser {
        username: username.to_string(),
        email: format!("{}@example.com", username),
        password: password.to_string(),
        password_confirm: confirm.to_string(),
    }
}

fn login(username: &str, password: &str) -> UserLogin {
    UserLogin { username: username.to_string(), password: password.to_string() }
}

#[test]
fn registered_password_logs_in_and_wrong_one_does_not() {
    let mut db = WishlistDb::new();
    let user = register_new_user(&mut db, &form("alice", "correct horse", "correct horse"), COST)
        .unwrap();
    assert!(user.id > 0);
    assert_eq!(user.username, "alice");
    assert_eq!(user.email, "alice@example.com");
    // writes hand the user out without its hash
    assert_eq!(user.password_hash, "");
    let stored = User::find_by_username(&db, "alice").unwrap();
    assert!(stored.password_hash.starts_with("$2b$04$"));
    assert_ne!(stored.password_hash, "correct horse");
    let ok = verify_user_login(&db, &login("alice", "correct horse")).unwrap();
    assert_eq!(ok.id, user.id);
    assert!(matches!(
        verify_user_login(&db, &login("alice", "wrong")),
        Err(AuthError::InvalidLogin)
    ));
}

#[test]
fn unknown_user_and_wrong_password_fail_alike() {
    let mut db = WishlistDb::new();
    register_new_user(&mut db, &form("bob", "longenough", "longenough"), COST).unwrap();
    let unknown = verify_user_login(&db, &login("nobody", "longenough"));
    let wrong = verify_user_login(&db, &login("bob", "notthisone"));
    let (Err(a), Err(b)) = (unknown, wrong) else { panic!("both must fail") };
    assert!(matches!(a, AuthError::InvalidLogin));
    assert!(matches!(b, AuthError::InvalidLogin));
    assert_eq!(a.message(), b.message());
    assert_eq!(a.message(), "Incorrect username or password");
}

#[test]
fn unreadable_stored_hash_is_a_bcrypt_error() {
    let mut db = WishlistDb::new();
    User::create(&mut db, "carol", "c@example.com", "not a hash").unwrap();
    assert!(matches!(
        verify_user_login(&db, &login("carol", "whatever")),
        Err(AuthError::Bcrypt(_))
    ));
}

#[test]
fn registration_rules() {
    let mut db = WishlistDb::new();
    let cases: Vec<(NewUser, Vec<(&str, &str, &str)>)> = vec![
        (
            form("u1", "short", "short"),
            vec![("password", "length", "Password must be longer than 8 characters.")],
        ),
        (
            form("u2", "password", "password"),
            vec![("password", "insecure", "Password cannot be 'password'")],
        ),
        (
            form("u3", "hunter2", "hunter2"),
            vec![
                ("password", "length", "Password must be longer than 8 characters."),
                ("password", "insecure", "Nice try, but no."),
            ],
        ),
        (
            form("u4", "longenough", "different1"),
            vec![("password_confirm", "must_match", "Passwords must match")],
        ),
        (
            form("u5", &"p".repeat(129), &"p".repeat(129)),
            vec![("password", "length", "Password must be longer than 8 characters.")],
        ),
    ];
    for (f, expected) in cases {
        match register_new_user(&mut db, &f, COST) {
            Err(DataError::Validation(e)) => {
                let got: Vec<(&str, &str, &str)> = e
                    .errors
                    .iter()
                    .map(|x| (x.field.as_str(), x.error.code.as_str(), x.error.message.as_str()))
                    .collect();
                assert_eq!(got, expected);
            }
            _ => panic!("expected a validation error"),
        }
    }
    assert_eq!(User::count(&db), 0);
    assert!(register_new_user(&mut db, &form("u6", &"p".repeat(128), &"p".repeat(128)), COST).is_ok());
    assert!(register_new_user(&mut db, &form("u7", "12345678", "12345678"), COST).is_ok());
}

#[test]
fn validate_password_denylist() {
    assert_eq!(validate_password("password").unwrap_err().code, "insecure");
    assert_eq!(validate_password("hunter2").unwrap_err().message, "Nice try, but no.");
    assert!(validate_password("Password").is_ok());
}

#[test]
fn taken_username_is_a_storage_error() {
    let mut db = WishlistDb::new();
    register_new_user(&mut db, &form("dave", "longenough", "longenough"), COST).unwrap();
    assert!(matches!(
        register_new_user(&mut db, &form("dave", "otherpass1", "otherpass1"), COST),
        Err(DataError::Storage(StorageError::DuplicateUsername))
    ));
    assert_eq!(User::count(&db), 1);
}

#[test]
fn cost_out_of_range_stores_nothing() {
    let mut db = WishlistDb::new();
    assert!(matches!(
        register_new_user(&mut db, &form("erin", "longenough", "longenough"), 3),
        Err(DataError::Other(_))
    ));
    assert_eq!(User::count(&db), 0);
    assert_eq!(DEFAULT_COST, 12);
}

#[test]
fn user_update_keeps_hash_and_checks_username() {
    let mut db = WishlistDb::new();
    User::create(&mut db, "frank", "f@example.com", "hash-f").unwrap();
    User::create(&mut db, "gina", "g@example.com", "hash-g").unwrap();
    let mut frank = User::find_by_username(&db, "frank").unwrap();
    let shown = frank.update(&mut db, "franklin", "new@example.com").unwrap();
    assert_eq!(shown.username, "franklin");
    assert_eq!(shown.password_hash, "");
    let stored = User::find_by_id(&db, frank.id).unwrap();
    assert_eq!(stored.password_hash, "hash-f");
    assert_eq!(stored.email, "new@example.com");
    assert!(User::find_by_username(&db, "frank").is_none());
    assert!(matches!(
        frank.update(&mut db, "gina", "x@example.com"),
        Err(DataError::Storage(StorageError::DuplicateUsername))
    ));
    // keeping one's own username is fine
    assert!(frank.update(&mut db, "franklin", "y@example.com").is_ok());
}

#[test]
fn listing_users_hides_hashes() {
    let mut db = WishlistDb::new();
    User::create(&mut db, "h1", "h1@example.com", "secret1").unwrap();
    User::create(&mut db, "h2", "h2@example.com", "secret2").unwrap();
    let all = User::all(&db);
    assert_eq!(all.len(), 2);
    assert_eq!(all[0].username, "h1");
    assert!(all.iter().all(|u| u.password_hash.is_empty()));
}

#[test]
fn new_user_is_unsaved() {
    let u = User::new("n".to_string(), "e".to_string(), "h".to_string());
    assert_eq!(u.id, 0);
    assert_eq!(u.created_at, 0);
    assert_eq!(u.password_hash, "h");
}

#[test]
fn created_user_is_stamped_with_the_clock() {
    let mut db = WishlistDb::new();
    let u = User::create(&mut db, "tim", "t@example.com", "h").unwrap();
    // 2020-01-01T00:00:00Z
    assert!(u.created_at > 1_577_836_800);
    assert_eq!(u.created_at, u.updated_at);
}

#[test]
fn hashing_and_checking_need_no_store() {
    let prepared = prepare_new_user(&form("ivy", "longenough", "longenough"), COST).unwrap();
    assert_eq!(prepared.id, 0);
    assert_eq!(prepared.username, "ivy");
    assert!(prepared.password_hash.starts_with("$2b$04$"));
    let found = Some(prepared.clone());
    assert!(check_login(found, &login("ivy", "longenough")).is_ok());
    assert!(matches!(
        check_login(Some(prepared), &login("ivy", "nope")),
        Err(AuthError::InvalidLogin)
    ));
    assert!(matches!(check_login(None, &login("ivy", "longenough")), Err(AuthError::InvalidLogin)));
    assert!(matches!(
        prepare_new_user(&form("ivy", "short", "short"), COST),
        Err(DataError::Validation(_))
    ));
}

#[test]
fn bcrypt_error_message_names_the_cause() {
    let e = AuthError::Bcrypt("bad hash".to_string());
    assert_eq!(e.message(), "Bcrypt error: bad hash");
}

#[test]
fn restored_user_keeps_hash_and_times() {
    let mut db = WishlistDb::new();
    let u = User {
        id: 4,
        username: "old".to_string(),
        email: "o@example.com".to_string(),
        password_hash: "h".to_string(),
        created_at: 100,
        updated_at: 200,
    };
    u.restore(&mut db).unwrap();
    let back = User::find_by_id(&db, 4).unwrap();
    assert_eq!(back.password_hash, "h");
    assert_eq!(back.created_at, 100);
    assert_eq!(back.updated_at, 200);
    assert_eq!(db.users().len(), 1);
}
