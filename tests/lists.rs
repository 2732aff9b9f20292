use wishlist::db::StorageError;
use wishlist::{DataError, Item, List, WishlistDb};

fn text(n: usize) -> String {
    "a".repeat(n)
}

#[test]
fn created_list_is_found_by_id_and_key() {
    let mut db = WishlistDb::new();
    let created = List::create(&mut db, false, "Birthday", "Things I'd like").unwrap();
    assert!(created.id > 0);
    assert_eq!(created.key.len(), 32);
    assert!(created.key.chars().all(|c| c.is_ascii_alphanumeric()));
    let by_id = List::find_by_id(&db, created.id).unwrap();
    let by_key = List::find_by_key(&db, &created.key).unwrap();
    for found in [by_id, by_key] {
        assert_eq!(found.id, created.id);
        assert_eq!(found.key, created.key);
        assert_eq!(found.is_private, created.is_private);
        assert_eq!(found.title, "Birthday");
        assert_eq!(found.description, "Things I'd like");
    }
    assert_eq!(List::count(&db), 1);
}

#[test]
fn title_length_bounds_are_inclusive() {
    let mut db = WishlistDb::new();
    assert!(List::create(&mut db, false, &text(2), "").is_ok());
    assert!(List::create(&mut db, false, &text(256), &text(4096)).is_ok());
    assert_eq!(List::count(&db), 2);
}

#[test]
fn bad_titles_are_refused_and_nothing_is_stored() {
    let mut db = WishlistDb::new();
    for title in [String::new(), text(1), text(257)] {
        match List::create(&mut db, false, &title, "ok") {
            Err(DataError::Validation(e)) => {
                assert_eq!(e.errors.len(), 1);
                assert_eq!(e.errors[0].field, "title");
                assert_eq!(e.errors[0].error.code, "length");
                assert_eq!(e.errors[0].error.message, "Title must be between 2 and 256 characters");
            }
            _ => panic!("expected a validation error"),
        }
        assert_eq!(List::count(&db), 0);
    }
}

#[test]
fn all_violations_come_together_in_field_order() {
    let mut db = WishlistDb::new();
    match List::create(&mut db, true, "x", &text(4097)) {
        Err(DataError::Validation(e)) => {
            let fields: Vec<&str> = e.errors.iter().map(|f| f.field.as_str()).collect();
            assert_eq!(fields, vec!["title", "description"]);
            assert_eq!(
                e.errors[1].error.message,
                "Description must be less than 4096 characters"
            );
        }
        _ => panic!("expected a validation error"),
    }
}

#[test]
fn titles_count_chars_not_bytes() {
    let mut db = WishlistDb::new();
    // two chars, four bytes
    assert!(List::create(&mut db, false, "éé", "").is_ok());
    // one char, several bytes
    assert!(List::create(&mut db, false, "🎁", "").is_err());
}

#[test]
fn private_list_is_reached_only_by_its_key() {
    let mut db = WishlistDb::new();
    let public = List::create(&mut db, false, "Public", "").unwrap();
    let private = List::create(&mut db, true, "Private", "").unwrap();
    let listed = List::all_public(&db);
    assert_eq!(listed.len(), 1);
    assert_eq!(listed[0].id, public.id);
    let found = List::find_by_key(&db, &private.key).unwrap();
    assert_eq!(found.id, private.id);
    assert!(found.is_private);
    assert!(List::find_by_key(&db, "not-a-key").is_none());
    let mut wrong = private.key.clone();
    wrong.pop();
    assert!(List::find_by_key(&db, &wrong).is_none());
}

#[test]
fn update_replaces_fields_and_keeps_key() {
    let mut db = WishlistDb::new();
    let mut list = List::create(&mut db, false, "Before", "old").unwrap();
    let key = list.key.clone();
    let updated = list.update(&mut db, true, "After", "new").unwrap();
    assert_eq!(updated.id, list.id);
    assert_eq!(updated.key, key);
    assert!(updated.is_private);
    assert_eq!(updated.title, "After");
    let found = List::find_by_key(&db, &key).unwrap();
    assert_eq!(found.title, "After");
    assert_eq!(found.description, "new");
    assert!(List::all_public(&db).is_empty());
}

#[test]
fn invalid_update_leaves_the_row() {
    let mut db = WishlistDb::new();
    let mut list = List::create(&mut db, false, "Keep", "").unwrap();
    assert!(matches!(list.update(&mut db, false, "k", ""), Err(DataError::Validation(_))));
    assert_eq!(List::find_by_id(&db, list.id).unwrap().title, "Keep");
}

#[test]
fn update_of_a_missing_row_is_row_not_found() {
    let mut db = WishlistDb::new();
    let ghost = List {
        id: 42,
        key: "k".to_string(),
        is_private: false,
        title: "Ghost".to_string(),
        description: String::new(),
    };
    assert!(matches!(
        ghost.do_update(&mut db),
        Err(DataError::Storage(StorageError::RowNotFound))
    ));
}

#[test]
fn duplicate_key_is_a_storage_error() {
    let mut db = WishlistDb::new();
    let make = || List {
        id: 0,
        key: "samekey".to_string(),
        is_private: false,
        title: "One".to_string(),
        description: String::new(),
    };
    assert!(make().save(&mut db).is_ok());
    assert!(matches!(
        make().save(&mut db),
        Err(DataError::Storage(StorageError::DuplicateKey))
    ));
    assert_eq!(List::count(&db), 1);
}

#[test]
fn deleting_a_list_deletes_its_items() {
    let mut db = WishlistDb::new();
    let mut list = List::create(&mut db, false, "Doomed", "").unwrap();
    let other = List::create(&mut db, false, "Other", "").unwrap();
    let a = Item::create(&mut db, list.id, "Socks", "").unwrap();
    let b = Item::create(&mut db, list.id, "Book", "").unwrap();
    let c = Item::create(&mut db, other.id, "Lamp", "").unwrap();
    let id = list.id;
    list.destroy(&mut db).unwrap();
    assert_eq!(list.id, 0);
    assert!(List::find_by_id(&db, id).is_none());
    assert!(Item::find_by_id(&db, a.id).is_none());
    assert!(Item::find_by_id(&db, b.id).is_none());
    assert!(Item::all_by_list(&db, id).is_empty());
    assert_eq!(Item::find_by_id(&db, c.id).unwrap().title, "Lamp");
    assert_eq!(Item::count(&db), 1);
    assert_eq!(List::count(&db), 1);
}

#[test]
fn destroying_an_unsaved_list_does_nothing() {
    let mut db = WishlistDb::new();
    List::create(&mut db, false, "Stay", "").unwrap();
    let mut unsaved = List::new(false, "New".to_string(), String::new());
    assert!(unsaved.destroy(&mut db).is_ok());
    assert_eq!(List::count(&db), 1);
}

#[test]
fn new_list_is_unsaved_with_a_random_key() {
    let a = List::new(true, "Title".to_string(), "Desc".to_string());
    let b = List::new(true, "Title".to_string(), "Desc".to_string());
    assert_eq!(a.id, 0);
    assert!(a.is_private);
    assert_eq!(a.title, "Title");
    assert_eq!(a.key.len(), 32);
    assert_ne!(a.key, b.key);
}

#[test]
fn ids_are_assigned_in_order() {
    let mut db = WishlistDb::new();
    let a = List::create(&mut db, false, "First", "").unwrap();
    let b = List::create(&mut db, false, "Second", "").unwrap();
    assert_eq!(a.id, 1);
    assert_eq!(b.id, 2);
}

#[test]
fn default_list_and_item_are_unsaved_and_empty() {
    let l = List::default();
    assert_eq!(l.id, 0);
    assert!(l.is_private);
    assert!(l.title.is_empty());
    assert_eq!(l.key.len(), 32);
    let i = Item::default();
    assert_eq!(i.id, 0);
    assert_eq!(i.list_id, 0);
    assert!(i.description.is_empty());
}
