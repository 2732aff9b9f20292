use wishlist::db::StorageError;
use wishlist::{DataError, Item, List, WishlistDb};

#[test]
fn created_item_is_found_by_id() {
    let mut db = WishlistDb::new();
    let list = List::create(&mut db, false, "List", "").unwrap();
    let item = Item::create(&mut db, list.id, "Teapot", "blue").unwrap();
    let found = Item::find_by_id(&db, item.id).unwrap();
    assert_eq!(found.id, item.id);
    assert_eq!(found.list_id, list.id);
    assert_eq!(found.title, "Teapot");
    assert_eq!(found.description, "blue");
    let all = Item::all_by_list(&db, list.id);
    assert_eq!(all.len(), 1);
    assert_eq!(all[0].id, item.id);
}

#[test]
fn item_rules_are_checked_before_storage() {
    let mut db = WishlistDb::new();
    match Item::create(&mut db, 0, "x", "") {
        Err(DataError::Validation(e)) => {
            let fields: Vec<&str> = e.errors.iter().map(|f| f.field.as_str()).collect();
            assert_eq!(fields, vec!["list_id", "title"]);
            assert_eq!(e.errors[0].error.code, "range");
            assert_eq!(e.errors[0].error.message, "Invalid list ID");
        }
        _ => panic!("expected a validation error"),
    }
    assert_eq!(Item::count(&db), 0);
}

#[test]
fn item_of_a_missing_list_is_refused() {
    let mut db = WishlistDb::new();
    assert!(matches!(
        Item::create(&mut db, 99, "Orphan", ""),
        Err(DataError::Storage(StorageError::MissingList))
    ));
    assert_eq!(Item::count(&db), 0);
}

#[test]
fn item_update_and_destroy() {
    let mut db = WishlistDb::new();
    let list = List::create(&mut db, false, "List", "").unwrap();
    let mut item = Item::create(&mut db, list.id, "Old", "").unwrap();
    let updated = item.update(&mut db, "New", "desc").unwrap();
    assert_eq!(updated.title, "New");
    assert_eq!(Item::find_by_id(&db, item.id).unwrap().description, "desc");
    let id = item.id;
    item.destroy(&mut db).unwrap();
    assert!(Item::find_by_id(&db, id).is_none());
    assert!(List::find_by_id(&db, list.id).is_some());
}

#[test]
fn items_of_each_list_keep_insertion_order() {
    let mut db = WishlistDb::new();
    let a = List::create(&mut db, false, "AA", "").unwrap();
    let b = List::create(&mut db, false, "BB", "").unwrap();
    Item::create(&mut db, a.id, "a1", "").unwrap();
    Item::create(&mut db, b.id, "b1", "").unwrap();
    Item::create(&mut db, a.id, "a2", "").unwrap();
    let titles: Vec<String> = Item::all_by_list(&db, a.id).into_iter().map(|i| i.title).collect();
    assert_eq!(titles, vec!["a1".to_string(), "a2".to_string()]);
}

#[test]
fn new_item_is_unsaved() {
    let item = Item::new(3, "T".to_string(), "D".to_string());
    assert_eq!(item.id, 0);
    assert_eq!(item.list_id, 3);
    assert_eq!(item.title, "T");
    assert_eq!(item.description, "D");
}

#[test]
fn update_keeps_the_item_in_its_list() {
    let mut db = WishlistDb::new();
    let home = List::create(&mut db, false, "Home", "").unwrap();
    let other = List::create(&mut db, false, "Other", "").unwrap();
    let item = Item::create(&mut db, home.id, "Chair", "").unwrap();
    let mut moved = Item { id: item.id, list_id: other.id, title: "Chair".to_string(), description: String::new() };
    let updated = moved.update(&mut db, "Armchair", "green").unwrap();
    assert_eq!(updated.list_id, home.id);
    assert_eq!(updated.title, "Armchair");
    let stored = Item::find_by_id(&db, item.id).unwrap();
    assert_eq!(stored.list_id, home.id);
    assert_eq!(stored.description, "green");
    assert!(Item::all_by_list(&db, other.id).is_empty());
}

#[test]
fn items_are_found_only_in_their_own_list() {
    let mut db = WishlistDb::new();
    let private = List::create(&mut db, true, "Secret", "").unwrap();
    let public = List::create(&mut db, false, "Open", "").unwrap();
    let hidden = Item::create(&mut db, private.id, "Ring", "").unwrap();
    assert_eq!(Item::find_in_list(&db, private.id, hidden.id).unwrap().title, "Ring");
    assert!(Item::find_in_list(&db, public.id, hidden.id).is_none());
    assert!(Item::find_in_list(&db, private.id, 999).is_none());
}

#[test]
fn restored_rows_keep_their_ids() {
    let mut db = WishlistDb::new();
    let l = List { id: 5, key: "k5".to_string(), is_private: true, title: "Five".to_string(), description: String::new() };
    assert_eq!(l.restore(&mut db).unwrap().id, 5);
    let i = Item { id: 9, list_id: 5, title: "Nine".to_string(), description: String::new() };
    assert_eq!(i.restore(&mut db).unwrap().id, 9);
    assert_eq!(List::find_by_key(&db, "k5").unwrap().title, "Five");
    let fresh = List::create(&mut db, false, "Six", "").unwrap();
    assert_eq!(fresh.id, 6);
    let early = Item { id: 2, list_id: 5, title: "Two".to_string(), description: String::new() };
    assert!(matches!(early.restore(&mut db), Err(DataError::Storage(StorageError::IdOutOfOrder))));
    db.advance_ids(20, 30, 1, 1);
    assert_eq!(db.next_ids(), (20, 30, 1, 1));
    assert_eq!(db.lists().len(), 2);
    assert_eq!(db.items().len(), 1);
}
