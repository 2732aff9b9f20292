use wishlist::api;
use wishlist::db::StorageError;
use wishlist::web::{classify, show_2};
use wishlist::{ApiError, CreateList, DataError, EditList, Item, List, ValidationErrors, WebError, WishlistDb};

fn body(is_private: bool, title: &str) -> CreateList {
    CreateList { is_private, title: title.to_string(), description: String::new() }
}

#[test]
fn api_create_show_index() {
    let mut db = WishlistDb::new();
    let a = api::create(&mut db, &body(false, "Open")).unwrap();
    let b = api::create(&mut db, &body(true, "Hidden")).unwrap();
    let listed = api::index(&db);
    assert_eq!(listed.len(), 1);
    assert_eq!(listed[0].key, a.key);
    assert_eq!(api::show(&db, &b.key).unwrap().title, "Hidden");
    assert!(api::show(&db, "nope").is_none());
}

#[test]
fn api_invalid_body_is_422_with_title() {
    let mut db = WishlistDb::new();
    let err = api::create(&mut db, &body(false, "x")).unwrap_err();
    assert_eq!(err.status(), 422);
    match err {
        ApiError::Invalid(e) => assert_eq!(e.errors[0].field, "title"),
        _ => panic!("expected Invalid"),
    }
    assert_eq!(List::count(&db), 0);
}

#[test]
fn api_update_and_destroy_by_key() {
    let mut db = WishlistDb::new();
    let a = api::create(&mut db, &body(false, "Open")).unwrap();
    let edit = EditList { is_private: true, title: "Closed".to_string(), description: "d".to_string() };
    let updated = api::update(&mut db, &a.key, &edit).unwrap();
    assert_eq!(updated.key, a.key);
    assert_eq!(updated.title, "Closed");
    assert!(api::index(&db).is_empty());
    let bad = EditList { is_private: true, title: "C".to_string(), description: String::new() };
    assert_eq!(api::update(&mut db, &a.key, &bad).unwrap_err().status(), 422);
    Item::create(&mut db, a.id, "Thing", "").unwrap();
    api::destroy(&mut db, &a.key).unwrap();
    assert!(api::show(&db, &a.key).is_none());
    assert_eq!(Item::count(&db), 0);
}

#[test]
fn api_missing_key_is_404() {
    let mut db = WishlistDb::new();
    let edit = EditList { is_private: false, title: "Title".to_string(), description: String::new() };
    match api::update(&mut db, "missing", &edit) {
        Err(ApiError::NotFound(g)) => assert_eq!(g.message, "List not found"),
        _ => panic!("expected NotFound"),
    }
    let err = api::destroy(&mut db, "missing").unwrap_err();
    assert_eq!(err.status(), 404);
}

#[test]
fn error_classes() {
    let not_found = ApiError::from_data_error(DataError::Storage(StorageError::RowNotFound));
    assert_eq!(not_found.status(), 404);
    let dup = ApiError::from_data_error(DataError::Storage(StorageError::DuplicateKey));
    assert_eq!(dup.status(), 500);
    let other = ApiError::from_data_error(DataError::Other("boom".to_string()));
    match other {
        ApiError::Internal(g) => assert_eq!(g.message, "boom"),
        _ => panic!("expected Internal"),
    }
    let invalid = ApiError::from_data_error(DataError::Validation(ValidationErrors::new()));
    assert_eq!(invalid.status(), 422);
    assert_eq!(classify(&DataError::Storage(StorageError::RowNotFound)).status(), 404);
    assert_eq!(classify(&DataError::Storage(StorageError::MissingList)).status(), 500);
    assert_eq!(classify(&DataError::Validation(ValidationErrors::new())).status(), 422);
    let page: WebError<String> = classify(&DataError::Other("x".to_string())).with_body("oops".to_string());
    assert!(matches!(page, WebError::Internal(ref s) if s == "oops"));
    assert_eq!(StorageError::IdsExhausted.message(), "no id is left to assign");
    assert_eq!(StorageError::DuplicateKey.message(), "a list with this key already exists");
}

#[test]
fn account_page_without_session_goes_to_login() {
    assert_eq!(show_2(), "/login");
}
