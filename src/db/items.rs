use vstd::prelude::*;
use vstd::string::StringExecFns;

use crate::db::{
    item_ids, item_in_list, item_other_than, item_with_id, DataError, DbView,
    StorageError, WishlistDb,
};
use crate::db::lists::list_position;
use crate::models::Item;
use crate::rows::{
    lemma_filter_distinct, lemma_filter_member, lemma_filter_step, lemma_lookup_none,
    lemma_lookup_unique_at,
};

verus! {

/// `it` as the store keeps it under `id`.
pub open spec fn stored_item(it: Item, id: i64) -> Item {
    Item { id, list_id: it.list_id, title: it.title, description: it.description }
}

/// What inserting `it` does: validation first, then the list it names, then
/// the next id; on success the stored row is appended and returned.
pub open spec fn item_insert_done(
    pre: DbView,
    post: DbView,
    it: Item,
    r: Result<Item, DataError>,
) -> bool {
    if !it.is_valid() {
        &&& post == pre
        &&& r matches Err(DataError::Validation(e)) && e@ == it.violations()
    } else if pre.list_by_id(it.list_id) is None {
        &&& post == pre
        &&& r == Err::<Item, DataError>(DataError::Storage(StorageError::MissingList))
    } else if pre.next_item_id == i64::MAX {
        &&& post == pre
        &&& r == Err::<Item, DataError>(DataError::Storage(StorageError::IdsExhausted))
    } else {
        let c = stored_item(it, pre.next_item_id);
        &&& r == Ok::<Item, DataError>(c)
        &&& post == (DbView {
            items: pre.items.push(c),
            next_item_id: (pre.next_item_id + 1) as i64,
            ..pre
        })
    }
}

/// The row that updating with `it` writes over `stored`: the title and
/// description of `it`; the id and the list stay those of the stored row.
pub open spec fn updated_item(stored: Item, it: Item) -> Item {
    Item { id: stored.id, list_id: stored.list_id, title: it.title, description: it.description }
}

/// What updating with `it` does: validation first, then the row with `it.id`;
/// on success that row takes the title and description of `it`, and keeps its
/// list.
pub open spec fn item_update_done(
    pre: DbView,
    post: DbView,
    it: Item,
    r: Result<Item, DataError>,
) -> bool {
    if !it.is_valid() {
        &&& post == pre
        &&& r matches Err(DataError::Validation(e)) && e@ == it.violations()
    } else if pre.item_by_id(it.id) is None {
        &&& post == pre
        &&& r == Err::<Item, DataError>(DataError::Storage(StorageError::RowNotFound))
    } else {
        let c = updated_item(pre.item_by_id(it.id)->Some_0, it);
        &&& r == Ok::<Item, DataError>(c)
        &&& post == (DbView {
            items: pre.items.map_values(replace_item(c)),
            ..pre
        })
    }
}

/// Puts `it` in place of the row with its id.
pub open spec fn replace_item(it: Item) -> spec_fn(Item) -> Item {
    |x: Item| if x.id == it.id { it } else { x }
}

/// What deleting the item `id` does.
pub open spec fn item_delete_done(pre: DbView, post: DbView, id: i64) -> bool {
    post == (DbView { items: pre.items.filter(item_other_than(id)), ..pre })
}

proof fn lemma_items_push(pre: DbView, c: Item)
    requires
        pre.wf(),
        c.id == pre.next_item_id,
        pre.next_item_id < i64::MAX,
        pre.list_by_id(c.list_id) is Some,
    ensures
        (DbView { items: pre.items.push(c), next_item_id: (pre.next_item_id + 1) as i64, ..pre }).wf(),
{
    let post = DbView {
        items: pre.items.push(c),
        next_item_id: (pre.next_item_id + 1) as i64,
        ..pre
    };
    assert forall|i: int| 0 <= i < post.items.len() implies 0 < (#[trigger] post.items[i]).id
        < post.next_item_id && post.list_by_id(post.items[i].list_id) is Some by {
        if i < pre.items.len() {
            assert(post.items[i] == pre.items[i]);
        }
    }
    assert forall|i: int, j: int|
        0 <= i < post.items.len() && 0 <= j < post.items.len() && i != j implies (#[trigger] post.items[i]).id
        != (#[trigger] post.items[j]).id by {
        if i < pre.items.len() {
            assert(post.items[i] == pre.items[i]);
        }
        if j < pre.items.len() {
            assert(post.items[j] == pre.items[j]);
        }
    }
}

proof fn lemma_items_update(pre: DbView, k: int, c: Item)
    requires
        pre.wf(),
        0 <= k < pre.items.len(),
        pre.items[k].id == c.id,
        pre.items[k].list_id == c.list_id,
    ensures
        (DbView { items: pre.items.map_values(replace_item(c)), ..pre }).wf(),
{
    let post = DbView {
        items: pre.items.map_values(replace_item(c)),
        ..pre
    };
    assert forall|i: int| 0 <= i < post.items.len() implies 0 < (#[trigger] post.items[i]).id
        < post.next_item_id && post.list_by_id(post.items[i].list_id) is Some
        && post.items[i].id == pre.items[i].id by {
        if pre.items[i].id == c.id {
            assert(i == k);
        }
    }
    assert forall|i: int, j: int|
        0 <= i < post.items.len() && 0 <= j < post.items.len() && i != j implies (#[trigger] post.items[i]).id
        != (#[trigger] post.items[j]).id by {
        assert(pre.items[i].id != pre.items[j].id);
    }
}

proof fn lemma_items_delete(pre: DbView, id: i64)
    requires
        pre.wf(),
    ensures
        (DbView { items: pre.items.filter(item_other_than(id)), ..pre }).wf(),
{
    let ip = item_other_than(id);
    let post = DbView { items: pre.items.filter(ip), ..pre };
    broadcast use vstd::seq_lib::group_filter_ensures;

    lemma_filter_distinct(pre.items, ip, item_ids());
    assert forall|i: int| 0 <= i < post.items.len() implies 0 < (#[trigger] post.items[i]).id
        < post.next_item_id && post.list_by_id(post.items[i].list_id) is Some by {
        lemma_filter_member(pre.items, ip, i);
    }
}

/// The index of the item with `id`, if one is stored.
fn item_position(db: &WishlistDb, id: i64) -> (r: Option<usize>)
    requires
        db@.wf(),
    ensures
        match r {
            Some(k) => k < db@.items.len() && db@.items[k as int].id == id && db@.item_by_id(id)
                == Some(db@.items[k as int]),
            None => db@.item_by_id(id) is None,
        },
{
    let mut i: usize = 0;
    while i < db.items.len()
        invariant
            db@.wf(),
            i <= db@.items.len(),
            forall|j: int| 0 <= j < i ==> (#[trigger] db@.items[j]).id != id,
        decreases db@.items.len() - i,
    {
        if db.items[i].id == id {
            proof {
                lemma_lookup_unique_at(db@.items, item_with_id(id), item_ids(), id, i as int);
            }
            return Some(i);
        }
        i += 1;
    }
    proof {
        lemma_lookup_none(db@.items, item_with_id(id));
    }
    None
}

impl Item {
    /// Shorthand for `Item::new(...).save(db)`: creates an item and saves
    /// it, returning the stored item.
    pub fn create(db: &mut WishlistDb, list_id: i64, title: &str, description: &str) -> (r: Result<
        Item,
        DataError,
    >)
        requires
            old(db)@.wf(),
        ensures
            final(db)@.wf(),
            exists|it: Item|
                it.id == 0 && it.list_id == list_id && it.title@ == title@ && it.description@
                    == description@ && item_insert_done(old(db)@, final(db)@, it, r),
    {
        Item::new(list_id, String::from_str(title), String::from_str(description)).save(db)
    }

    /// Saves the item: inserts it when its id is 0, else updates the stored
    /// row with its id.
    pub fn save(self, db: &mut WishlistDb) -> (r: Result<Item, DataError>)
        requires
            old(db)@.wf(),
        ensures
            final(db)@.wf(),
            self.id == 0 ==> item_insert_done(old(db)@, final(db)@, self, r),
            self.id != 0 ==> item_update_done(old(db)@, final(db)@, self, r),
    {
        if self.id == 0 {
            self.do_insert(db)
        } else {
            self.do_update(db)
        }
    }

    /// Returns the items of a list, in insertion order.
    pub fn all_by_list(db: &WishlistDb, list_id: i64) -> (r: Vec<Item>)
        ensures
            r@ == db@.items_of(list_id),
    {
        let mut out: Vec<Item> = Vec::new();
        let mut i: usize = 0;
        while i < db.items.len()
            invariant
                i <= db@.items.len(),
                out@ == db@.items.take(i as int).filter(item_in_list(list_id)),
            decreases db@.items.len() - i,
        {
            if db.items[i].list_id == list_id {
                out.push(db.items[i].duplicate());
            }
            proof {
                lemma_filter_step(db@.items, item_in_list(list_id), i as int);
            }
            i += 1;
        }
        proof {
            assert(db@.items.take(db@.items.len() as int) =~= db@.items);
        }
        out
    }

    /// Returns the item with the given id, or `None` if no item has it.
    pub fn find_by_id(db: &WishlistDb, id: i64) -> (r: Option<Item>)
        requires
            db@.wf(),
        ensures
            r == db@.item_by_id(id),
    {
        match item_position(db, id) {
            Some(k) => Some(db.items[k].duplicate()),
            None => None,
        }
    }

    /// Returns the item with the given id if it belongs to the list
    /// `list_id`; an item of another list is not found.
    pub fn find_in_list(db: &WishlistDb, list_id: i64, id: i64) -> (r: Option<Item>)
        requires
            db@.wf(),
        ensures
            r == db@.item_in_list_by_id(list_id, id),
    {
        match item_position(db, id) {
            Some(k) => {
                if db.items[k].list_id == list_id {
                    Some(db.items[k].duplicate())
                } else {
                    None
                }
            },
            None => None,
        }
    }

    /// Replaces the item's title and description and writes them, returning
    /// the stored item.
    pub fn update(&mut self, db: &mut WishlistDb, title: &str, description: &str) -> (r: Result<
        Item,
        DataError,
    >)
        requires
            old(db)@.wf(),
        ensures
            final(db)@.wf(),
            final(self).id == old(self).id,
            final(self).list_id == old(self).list_id,
            final(self).title@ == title@,
            final(self).description@ == description@,
            item_update_done(old(db)@, final(db)@, *final(self), r),
    {
        self.title = String::from_str(title);
        self.description = String::from_str(description);
        self.do_update(db)
    }

    /// Deletes the item. An item that was never stored (id 0) is left alone;
    /// a deleted one gets id 0.
    pub fn destroy(&mut self, db: &mut WishlistDb) -> (r: Result<(), DataError>)
        requires
            old(db)@.wf(),
        ensures
            final(db)@.wf(),
            r is Ok,
            old(self).id == 0 ==> final(db)@ == old(db)@,
            old(self).id != 0 ==> item_delete_done(old(db)@, final(db)@, old(self).id),
            *final(self) == (Item { id: 0, ..*old(self) }),
    {
        if self.id != 0 {
            let r = Item::do_delete(db, self.id);
            self.id = 0;
            r
        } else {
            Ok(())
        }
    }

    /// Returns the number of items.
    pub fn count(db: &WishlistDb) -> (r: i64)
        requires
            db@.wf(),
        ensures
            r == db@.items.len(),
    {
        db.items.len() as i64
    }

    /// Stores an item under its own id, as an insert at that id does: the id
    /// must not be below the next one of the table.
    pub fn restore(self, db: &mut WishlistDb) -> (r: Result<Item, DataError>)
        requires
            old(db)@.wf(),
        ensures
            final(db)@.wf(),
            self.id < old(db)@.next_item_id ==> final(db)@ == old(db)@ && r == Err::<Item, DataError>(
                DataError::Storage(StorageError::IdOutOfOrder),
            ),
            self.id >= old(db)@.next_item_id ==> item_insert_done(
                DbView { next_item_id: self.id, ..old(db)@ },
                final(db)@,
                self,
                r,
            ),
    {
        if self.id < db.next_item_id {
            return Err(DataError::Storage(StorageError::IdOutOfOrder));
        }
        db.next_item_id = self.id;
        self.do_insert(db)
    }

    /// Validates the item and appends it under the next id.
    pub fn do_insert(self, db: &mut WishlistDb) -> (r: Result<Item, DataError>)
        requires
            old(db)@.wf(),
        ensures
            final(db)@.wf(),
            item_insert_done(old(db)@, final(db)@, self, r),
    {
        match self.validate() {
            Err(e) => {
                return Err(DataError::Validation(e));
            },
            Ok(()) => {},
        }
        if list_position(db, self.list_id).is_none() {
            return Err(DataError::Storage(StorageError::MissingList));
        }
        if db.next_item_id == i64::MAX {
            return Err(DataError::Storage(StorageError::IdsExhausted));
        }
        let c = Item {
            id: db.next_item_id,
            list_id: self.list_id,
            title: self.title,
            description: self.description,
        };
        proof {
            lemma_items_push(db@, c);
        }
        db.items.push(c.duplicate());
        db.next_item_id = db.next_item_id + 1;
        Ok(c)
    }

    /// Validates the item and writes its title and description over the
    /// stored row with its id; the stored row keeps its list.
    pub fn do_update(&self, db: &mut WishlistDb) -> (r: Result<Item, DataError>)
        requires
            old(db)@.wf(),
        ensures
            final(db)@.wf(),
            item_update_done(old(db)@, final(db)@, *self, r),
    {
        match self.validate() {
            Err(e) => {
                return Err(DataError::Validation(e));
            },
            Ok(()) => {},
        }
        let k = match item_position(db, self.id) {
            Some(k) => k,
            None => {
                return Err(DataError::Storage(StorageError::RowNotFound));
            },
        };
        let c = Item {
            id: self.id,
            list_id: db.items[k].list_id,
            title: self.title.clone(),
            description: self.description.clone(),
        };
        let ghost pre = db@;
        proof {
            lemma_items_update(pre, k as int, c);
        }
        db.items.set(k, c.duplicate());
        proof {
            assert forall|i: int| 0 <= i < pre.items.len() implies
                #[trigger] db@.items[i] == (if pre.items[i].id == c.id { c } else { pre.items[i] }) by {
                if pre.items[i].id == self.id {
                    assert(i == k);
                }
            }
            assert(db@.items =~= pre.items.map_values(replace_item(c)));
            assert(db@ == (DbView {
                items: pre.items.map_values(replace_item(c)),
                ..pre
            }));
        }
        Ok(c)
    }

    /// Deletes the item with `id`, if stored.
    pub fn do_delete(db: &mut WishlistDb, id: i64) -> (r: Result<(), DataError>)
        requires
            old(db)@.wf(),
        ensures
            final(db)@.wf(),
            r is Ok,
            item_delete_done(old(db)@, final(db)@, id),
    {
        let ghost pre = db@;
        let mut kept: Vec<Item> = Vec::new();
        let mut i: usize = 0;
        while i < db.items.len()
            invariant
                db@ == pre,
                i <= pre.items.len(),
                kept@ == pre.items.take(i as int).filter(item_other_than(id)),
            decreases pre.items.len() - i,
        {
            if db.items[i].id != id {
                kept.push(db.items[i].duplicate());
            }
            proof {
                lemma_filter_step(pre.items, item_other_than(id), i as int);
            }
            i += 1;
        }
        proof {
            assert(pre.items.take(pre.items.len() as int) =~= pre.items);
            lemma_items_delete(pre, id);
        }
        db.items = kept;
        Ok(())
    }
}

} // verus!

verus! {

/// A valid item of a stored list is stored: looking it up by its id finds
/// exactly the item that the insert returned, and its list lists it.
pub proof fn lemma_created_item_found(
    pre: DbView,
    post: DbView,
    it: Item,
    r: Result<Item, DataError>,
)
    requires
        pre.wf(),
        it.is_valid(),
        pre.list_by_id(it.list_id) is Some,
        pre.next_item_id < i64::MAX,
        item_insert_done(pre, post, it, r),
    ensures
        r is Ok,
        post.item_by_id(r->Ok_0.id) == Some(r->Ok_0),
        post.items_of(it.list_id).contains(r->Ok_0),
        r->Ok_0.list_id == it.list_id && r->Ok_0.title == it.title && r->Ok_0.description
            == it.description,
        post.items.len() == pre.items.len() + 1,
{
    broadcast use vstd::seq_lib::group_filter_ensures;

    let c = stored_item(it, pre.next_item_id);
    lemma_items_push(pre, c);
    let k = pre.items.len() as int;
    assert(post.items[k] == c);
    lemma_lookup_unique_at(post.items, item_with_id(c.id), item_ids(), c.id, k);
    assert(item_in_list(it.list_id)(post.items[k]));
}

} // verus!
