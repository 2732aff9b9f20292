use vstd::prelude::*;
use vstd::string::StringExecFns;

use crate::db::{
    item_ids, item_in_list, item_outside_list, list_ids, list_is_public, list_keys,
    list_other_than, list_with_id, list_with_key, DataError, DbView, StorageError, WishlistDb,
};
use crate::models::{Item, List};
use crate::rows::{
    distinct_by, lemma_filter_distinct, lemma_filter_keeps, lemma_filter_member, lemma_filter_step,
    lemma_lookup_none, lemma_lookup_some, lemma_lookup_unique_at,
};
use crate::util::is_token;

verus! {

/// `l` as the store keeps it once it is inserted under `id`.
pub open spec fn stored_list(l: List, id: i64) -> List {
    List {
        id,
        key: l.key,
        is_private: l.is_private,
        title: l.title,
        description: l.description,
    }
}

/// What inserting `l` does: validation first, then the unique key, then the
/// next id; on success the stored row is appended and returned.
pub open spec fn list_insert_done(
    pre: DbView,
    post: DbView,
    l: List,
    r: Result<List, DataError>,
) -> bool {
    if !l.is_valid() {
        &&& post == pre
        &&& r matches Err(DataError::Validation(e)) && e@ == l.violations()
    } else if pre.list_by_key(l.key@) is Some {
        &&& post == pre
        &&& r == Err::<List, DataError>(DataError::Storage(StorageError::DuplicateKey))
    } else if pre.next_list_id == i64::MAX {
        &&& post == pre
        &&& r == Err::<List, DataError>(DataError::Storage(StorageError::IdsExhausted))
    } else {
        let c = stored_list(l, pre.next_list_id);
        &&& r == Ok::<List, DataError>(c)
        &&& post == (DbView {
            lists: pre.lists.push(c),
            next_list_id: (pre.next_list_id + 1) as i64,
            ..pre
        })
    }
}

/// What updating with `l` does: validation first; then the row with `l.id`
/// gets the fields of `l` and keeps its key.
pub open spec fn list_update_done(
    pre: DbView,
    post: DbView,
    l: List,
    r: Result<List, DataError>,
) -> bool {
    if !l.is_valid() {
        &&& post == pre
        &&& r matches Err(DataError::Validation(e)) && e@ == l.violations()
    } else if pre.list_by_id(l.id) is None {
        &&& post == pre
        &&& r == Err::<List, DataError>(DataError::Storage(StorageError::RowNotFound))
    } else {
        let c = stored_list(List { key: pre.list_by_id(l.id)->Some_0.key, ..l }, l.id);
        &&& r == Ok::<List, DataError>(c)
        &&& post == (DbView {
            lists: pre.lists.map_values(replace_list(c)),
            ..pre
        })
    }
}

/// Puts `l` in place of the row with its id.
pub open spec fn replace_list(l: List) -> spec_fn(List) -> List {
    |x: List| if x.id == l.id { l } else { x }
}

/// What deleting the list `id` does: the list and its items are gone.
pub open spec fn list_delete_done(pre: DbView, post: DbView, id: i64) -> bool {
    post == (DbView {
        lists: pre.lists.filter(list_other_than(id)),
        items: pre.items.filter(item_outside_list(id)),
        ..pre
    })
}

/// Item references stay valid when every list keeps its id at its index.
proof fn lemma_lists_keep_ids(pre: DbView, post: DbView)
    requires
        pre.items_wf(),
        post.items == pre.items,
        post.next_item_id == pre.next_item_id,
        pre.lists.len() <= post.lists.len(),
        forall|j: int| 0 <= j < pre.lists.len() ==> (#[trigger] post.lists[j]).id == pre.lists[j].id,
    ensures
        post.items_wf(),
{
    assert forall|i: int| 0 <= i < post.items.len() implies 0 < (#[trigger] post.items[i]).id
        < post.next_item_id && post.list_by_id(post.items[i].list_id) is Some by {
        let lid = post.items[i].list_id;
        assert(pre.list_by_id(lid) is Some);
        let j = choose|j: int| 0 <= j < pre.lists.len() && list_with_id(lid)(pre.lists[j]);
        assert(post.lists[j].id == pre.lists[j].id);
        assert(list_with_id(lid)(post.lists[j]));
    }
}

proof fn lemma_lists_push(pre: DbView, c: List)
    requires
        pre.wf(),
        c.id == pre.next_list_id,
        pre.next_list_id < i64::MAX,
        pre.list_by_key(c.key@) is None,
    ensures
        (DbView { lists: pre.lists.push(c), next_list_id: (pre.next_list_id + 1) as i64, ..pre }).wf(),
{
    let post = DbView {
        lists: pre.lists.push(c),
        next_list_id: (pre.next_list_id + 1) as i64,
        ..pre
    };
    assert forall|j: int| 0 <= j < pre.lists.len() implies (#[trigger] pre.lists[j]).key@ != c.key@ by {
        if pre.lists[j].key@ == c.key@ {
            assert(list_with_key(c.key@)(pre.lists[j]));
        }
    }
    assert forall|i: int, j: int|
        0 <= i < post.lists.len() && 0 <= j < post.lists.len() && i != j implies (#[trigger] post.lists[i]).id
        != (#[trigger] post.lists[j]).id && post.lists[i].key@ != post.lists[j].key@ by {
        if i < pre.lists.len() && j < pre.lists.len() {
            assert(post.lists[i] == pre.lists[i] && post.lists[j] == pre.lists[j]);
        } else if i < pre.lists.len() {
            assert(post.lists[i] == pre.lists[i]);
        } else {
            assert(post.lists[j] == pre.lists[j]);
        }
    }
    assert forall|j: int| 0 <= j < pre.lists.len() implies (#[trigger] post.lists[j]).id
        == pre.lists[j].id by {
        assert(post.lists[j] == pre.lists[j]);
    }
    assert(distinct_by(post.lists, list_ids()));
    assert(distinct_by(post.lists, list_keys()));
    assert(post.lists_wf());
    lemma_lists_keep_ids(pre, post);
}

proof fn lemma_lists_update(pre: DbView, k: int, c: List)
    requires
        pre.wf(),
        0 <= k < pre.lists.len(),
        pre.lists[k].id == c.id,
        pre.lists[k].key == c.key,
    ensures
        (DbView {
            lists: pre.lists.map_values(replace_list(c)),
            ..pre
        }).wf(),
{
    let post = DbView {
        lists: pre.lists.map_values(replace_list(c)),
        ..pre
    };
    assert forall|i: int| 0 <= i < pre.lists.len() implies (#[trigger] post.lists[i]).id
        == pre.lists[i].id && post.lists[i].key == pre.lists[i].key by {
        if pre.lists[i].id == c.id {
            assert(i == k);
        }
    }
    assert forall|i: int, j: int|
        0 <= i < post.lists.len() && 0 <= j < post.lists.len() && i != j implies (#[trigger] post.lists[i]).id
        != (#[trigger] post.lists[j]).id && post.lists[i].key@ != post.lists[j].key@ by {
        assert(pre.lists[i].id != pre.lists[j].id);
        assert(pre.lists[i].key@ != pre.lists[j].key@);
    }
    assert(distinct_by(post.lists, list_ids()));
    assert(distinct_by(post.lists, list_keys()));
    assert(post.lists_wf());
    lemma_lists_keep_ids(pre, post);
}

proof fn lemma_lists_delete(pre: DbView, id: i64)
    requires
        pre.wf(),
    ensures
        (DbView {
            lists: pre.lists.filter(list_other_than(id)),
            items: pre.items.filter(item_outside_list(id)),
            ..pre
        }).wf(),
{
    let lp = list_other_than(id);
    let ip = item_outside_list(id);
    let post = DbView { lists: pre.lists.filter(lp), items: pre.items.filter(ip), ..pre };
    broadcast use vstd::seq_lib::group_filter_ensures;

    lemma_filter_distinct(pre.lists, lp, list_ids());
    lemma_filter_distinct(pre.lists, lp, list_keys());
    lemma_filter_distinct(pre.items, ip, item_ids());
    assert forall|i: int| 0 <= i < post.lists.len() implies 0 < (#[trigger] post.lists[i]).id
        < post.next_list_id by {
        lemma_filter_member(pre.lists, lp, i);
    }
    assert forall|i: int| 0 <= i < post.items.len() implies 0 < (#[trigger] post.items[i]).id
        < post.next_item_id && post.list_by_id(post.items[i].list_id) is Some by {
        lemma_filter_member(pre.items, ip, i);
        let m = choose|m: int| 0 <= m < pre.items.len() && pre.items[m] == post.items[i];
        let lid = pre.items[m].list_id;
        assert(pre.list_by_id(lid) is Some);
        let j = choose|j: int| 0 <= j < pre.lists.len() && #[trigger] pre.lists[j].id == lid;
        assert(lp(pre.lists[j]));
        lemma_filter_keeps(pre.lists, lp, j);
        let k = choose|k: int| 0 <= k < post.lists.len() && post.lists[k] == pre.lists[j];
        assert((|l: List| l.id == lid)(post.lists[k]));
    }
}

/// The index of the list with `id`, if one is stored.
pub(crate) fn list_position(db: &WishlistDb, id: i64) -> (r: Option<usize>)
    requires
        db@.wf(),
    ensures
        match r {
            Some(k) => k < db@.lists.len() && db@.lists[k as int].id == id && db@.list_by_id(id)
                == Some(db@.lists[k as int]),
            None => db@.list_by_id(id) is None,
        },
{
    let mut i: usize = 0;
    while i < db.lists.len()
        invariant
            db@.wf(),
            i <= db@.lists.len(),
            forall|j: int| 0 <= j < i ==> (#[trigger] db@.lists[j]).id != id,
        decreases db@.lists.len() - i,
    {
        if db.lists[i].id == id {
            proof {
                lemma_lookup_unique_at(db@.lists, list_with_id(id), list_ids(), id, i as int);
            }
            return Some(i);
        }
        i += 1;
    }
    proof {
        lemma_lookup_none(db@.lists, list_with_id(id));
    }
    None
}

/// The index of the list with `key`, if one is stored.
fn key_position(db: &WishlistDb, key: &String) -> (r: Option<usize>)
    requires
        db@.wf(),
    ensures
        match r {
            Some(k) => k < db@.lists.len() && db@.list_by_key(key@) == Some(db@.lists[k as int]),
            None => db@.list_by_key(key@) is None,
        },
{
    let mut i: usize = 0;
    while i < db.lists.len()
        invariant
            db@.wf(),
            i <= db@.lists.len(),
            forall|j: int| 0 <= j < i ==> (#[trigger] db@.lists[j]).key@ != key@,
        decreases db@.lists.len() - i,
    {
        if db.lists[i].key == *key {
            proof {
                lemma_lookup_unique_at(db@.lists, list_with_key(key@), list_keys(), key@, i as int);
            }
            return Some(i);
        }
        i += 1;
    }
    proof {
        lemma_lookup_none(db@.lists, list_with_key(key@));
    }
    None
}

impl List {
    /// Shorthand for `List::new(...).save(db)`: creates a list under a fresh
    /// random key and saves it, returning the stored list.
    pub fn create(db: &mut WishlistDb, is_private: bool, title: &str, description: &str) -> (r:
        Result<List, DataError>)
        requires
            old(db)@.wf(),
        ensures
            final(db)@.wf(),
            exists|l: List|
                l.id == 0 && is_token(l.key@) && l.is_private == is_private && l.title@ == title@
                    && l.description@ == description@ && list_insert_done(
                    old(db)@,
                    final(db)@,
                    l,
                    r,
                ),
    {
        let l = List::new(is_private, String::from_str(title), String::from_str(description));
        l.save(db)
    }

    /// Saves the list: inserts it when its id is 0, else updates the stored
    /// row with its id.
    pub fn save(self, db: &mut WishlistDb) -> (r: Result<List, DataError>)
        requires
            old(db)@.wf(),
        ensures
            final(db)@.wf(),
            self.id == 0 ==> list_insert_done(old(db)@, final(db)@, self, r),
            self.id != 0 ==> list_update_done(old(db)@, final(db)@, self, r),
    {
        if self.id == 0 {
            self.do_insert(db)
        } else {
            self.do_update(db)
        }
    }

    /// Returns all public lists, in insertion order.
    pub fn all_public(db: &WishlistDb) -> (r: Vec<List>)
        ensures
            r@ == db@.public_lists(),
    {
        let mut out: Vec<List> = Vec::new();
        let mut i: usize = 0;
        while i < db.lists.len()
            invariant
                i <= db@.lists.len(),
                out@ == db@.lists.take(i as int).filter(list_is_public()),
            decreases db@.lists.len() - i,
        {
            proof {
                lemma_filter_step(db@.lists, list_is_public(), i as int);
            }
            if !db.lists[i].is_private {
                out.push(db.lists[i].duplicate());
            }
            i += 1;
        }
        proof {
            assert(db@.lists.take(db@.lists.len() as int) =~= db@.lists);
        }
        out
    }

    /// Returns the list with the given key, or `None` if no list has it.
    pub fn find_by_key(db: &WishlistDb, key: &str) -> (r: Option<List>)
        requires
            db@.wf(),
        ensures
            r == db@.list_by_key(key@),
    {
        let key = String::from_str(key);
        match key_position(db, &key) {
            Some(k) => Some(db.lists[k].duplicate()),
            None => None,
        }
    }

    /// Returns the list with the given id, or `None` if no list has it.
    pub fn find_by_id(db: &WishlistDb, id: i64) -> (r: Option<List>)
        requires
            db@.wf(),
        ensures
            r == db@.list_by_id(id),
    {
        match list_position(db, id) {
            Some(k) => Some(db.lists[k].duplicate()),
            None => None,
        }
    }

    /// Replaces the list's privacy flag, title and description and writes
    /// them, returning the stored list.
    pub fn update(&mut self, db: &mut WishlistDb, is_private: bool, title: &str, description: &str)
        -> (r: Result<List, DataError>)
        requires
            old(db)@.wf(),
        ensures
            final(db)@.wf(),
            final(self).id == old(self).id,
            final(self).key == old(self).key,
            final(self).is_private == is_private,
            final(self).title@ == title@,
            final(self).description@ == description@,
            list_update_done(old(db)@, final(db)@, *final(self), r),
    {
        self.is_private = is_private;
        self.title = String::from_str(title);
        self.description = String::from_str(description);
        self.do_update(db)
    }

    /// Deletes the list, and with it its items. A list that was never stored
    /// (id 0) is left alone; a deleted one gets id 0.
    pub fn destroy(&mut self, db: &mut WishlistDb) -> (r: Result<(), DataError>)
        requires
            old(db)@.wf(),
        ensures
            final(db)@.wf(),
            r is Ok,
            old(self).id == 0 ==> final(db)@ == old(db)@,
            old(self).id != 0 ==> list_delete_done(old(db)@, final(db)@, old(self).id),
            *final(self) == (List { id: 0, ..*old(self) }),
    {
        if self.id != 0 {
            let r = List::do_delete(db, self.id);
            self.id = 0;
            r
        } else {
            Ok(())
        }
    }

    /// Returns the number of lists.
    pub fn count(db: &WishlistDb) -> (r: i64)
        requires
            db@.wf(),
        ensures
            r == db@.lists.len(),
    {
        db.lists.len() as i64
    }

    /// Stores a list under its own id, as an insert at that id does: the id
    /// must not be below the next one of the table.
    pub fn restore(self, db: &mut WishlistDb) -> (r: Result<List, DataError>)
        requires
            old(db)@.wf(),
        ensures
            final(db)@.wf(),
            self.id < old(db)@.next_list_id ==> final(db)@ == old(db)@ && r == Err::<List, DataError>(
                DataError::Storage(StorageError::IdOutOfOrder),
            ),
            self.id >= old(db)@.next_list_id ==> list_insert_done(
                DbView { next_list_id: self.id, ..old(db)@ },
                final(db)@,
                self,
                r,
            ),
    {
        if self.id < db.next_list_id {
            return Err(DataError::Storage(StorageError::IdOutOfOrder));
        }
        db.next_list_id = self.id;
        self.do_insert(db)
    }

    /// Validates the list and appends it under the next id.
    pub fn do_insert(self, db: &mut WishlistDb) -> (r: Result<List, DataError>)
        requires
            old(db)@.wf(),
        ensures
            final(db)@.wf(),
            list_insert_done(old(db)@, final(db)@, self, r),
    {
        match self.validate() {
            Err(e) => {
                return Err(DataError::Validation(e));
            },
            Ok(()) => {},
        }
        if key_position(db, &self.key).is_some() {
            return Err(DataError::Storage(StorageError::DuplicateKey));
        }
        if db.next_list_id == i64::MAX {
            return Err(DataError::Storage(StorageError::IdsExhausted));
        }
        let c = List {
            id: db.next_list_id,
            key: self.key,
            is_private: self.is_private,
            title: self.title,
            description: self.description,
        };
        proof {
            lemma_lists_push(db@, c);
        }
        db.lists.push(c.duplicate());
        db.next_list_id = db.next_list_id + 1;
        Ok(c)
    }

    /// Validates the list and writes its fields over the stored row with its
    /// id; the stored key stays.
    pub fn do_update(&self, db: &mut WishlistDb) -> (r: Result<List, DataError>)
        requires
            old(db)@.wf(),
        ensures
            final(db)@.wf(),
            list_update_done(old(db)@, final(db)@, *self, r),
    {
        match self.validate() {
            Err(e) => {
                return Err(DataError::Validation(e));
            },
            Ok(()) => {},
        }
        let k = match list_position(db, self.id) {
            Some(k) => k,
            None => {
                return Err(DataError::Storage(StorageError::RowNotFound));
            },
        };
        let c = List {
            id: self.id,
            key: db.lists[k].key.clone(),
            is_private: self.is_private,
            title: self.title.clone(),
            description: self.description.clone(),
        };
        let ghost pre = db@;
        proof {
            lemma_lists_update(pre, k as int, c);
        }
        db.lists.set(k, c.duplicate());
        proof {
            assert forall|i: int| 0 <= i < pre.lists.len() implies
                #[trigger] db@.lists[i] == (if pre.lists[i].id == c.id { c } else { pre.lists[i] }) by {
                if pre.lists[i].id == c.id {
                    assert(i == k);
                }
            }
            assert(db@.lists =~= pre.lists.map_values(replace_list(c)));
            assert(db@ == (DbView {
                lists: pre.lists.map_values(replace_list(c)),
                ..pre
            }));
        }
        Ok(c)
    }

    /// Deletes the list with `id`, if stored, and every item that names it.
    pub fn do_delete(db: &mut WishlistDb, id: i64) -> (r: Result<(), DataError>)
        requires
            old(db)@.wf(),
        ensures
            final(db)@.wf(),
            r is Ok,
            list_delete_done(old(db)@, final(db)@, id),
    {
        let ghost pre = db@;
        let mut kept: Vec<List> = Vec::new();
        let mut i: usize = 0;
        while i < db.lists.len()
            invariant
                db@ == pre,
                i <= pre.lists.len(),
                kept@ == pre.lists.take(i as int).filter(list_other_than(id)),
            decreases pre.lists.len() - i,
        {
            if db.lists[i].id != id {
                kept.push(db.lists[i].duplicate());
            }
            proof {
                lemma_filter_step(pre.lists, list_other_than(id), i as int);
            }
            i += 1;
        }
        let mut kept_items: Vec<Item> = Vec::new();
        let mut i: usize = 0;
        while i < db.items.len()
            invariant
                db@ == pre,
                i <= pre.items.len(),
                kept_items@ == pre.items.take(i as int).filter(item_outside_list(id)),
            decreases pre.items.len() - i,
        {
            if db.items[i].list_id != id {
                kept_items.push(db.items[i].duplicate());
            }
            proof {
                lemma_filter_step(pre.items, item_outside_list(id), i as int);
            }
            i += 1;
        }
        proof {
            assert(pre.lists.take(pre.lists.len() as int) =~= pre.lists);
            assert(pre.items.take(pre.items.len() as int) =~= pre.items);
            lemma_lists_delete(pre, id);
        }
        db.lists = kept;
        db.items = kept_items;
        Ok(())
    }
}

} // verus!

verus! {

/// A list found by key is stored: its id is positive and finds it again.
pub proof fn lemma_list_by_key_stored(db: DbView, key: Seq<char>)
    requires
        db.wf(),
        db.list_by_key(key) is Some,
    ensures
        db.list_by_key(key)->Some_0.id != 0,
        db.list_by_id(db.list_by_key(key)->Some_0.id) == db.list_by_key(key),
{
    let k = choose|i: int| 0 <= i < db.lists.len() && #[trigger] list_with_key(key)(db.lists[i]);
    let l = db.lists[k];
    lemma_lookup_unique_at(db.lists, list_with_id(l.id), list_ids(), l.id, k);
}

} // verus!

verus! {

/// A valid list inserted under a key that no stored list has is stored:
/// looking it up by its id, or by its key, finds exactly the list that the
/// insert returned, with the fields it was given.
pub proof fn lemma_created_list_found(
    pre: DbView,
    post: DbView,
    l: List,
    r: Result<List, DataError>,
)
    requires
        pre.wf(),
        l.is_valid(),
        pre.list_by_key(l.key@) is None,
        pre.next_list_id < i64::MAX,
        list_insert_done(pre, post, l, r),
    ensures
        r is Ok,
        post.list_by_id(r->Ok_0.id) == Some(r->Ok_0),
        post.list_by_key(r->Ok_0.key@) == Some(r->Ok_0),
        r->Ok_0.key == l.key && r->Ok_0.is_private == l.is_private && r->Ok_0.title == l.title
            && r->Ok_0.description == l.description,
        post.lists.len() == pre.lists.len() + 1,
{
    let c = stored_list(l, pre.next_list_id);
    lemma_lists_push(pre, c);
    let k = pre.lists.len() as int;
    assert(post.lists[k] == c);
    lemma_lookup_unique_at(post.lists, list_with_id(c.id), list_ids(), c.id, k);
    lemma_lookup_unique_at(post.lists, list_with_key(c.key@), list_keys(), c.key@, k);
}

/// A list whose title has fewer than 2 or more than 256 chars is refused with
/// a violation on `title`, and nothing is stored.
pub proof fn lemma_bad_title_refused(
    pre: DbView,
    post: DbView,
    l: List,
    r: Result<List, DataError>,
)
    requires
        !crate::models::list::title_ok(l.title@),
        list_insert_done(pre, post, l, r),
    ensures
        r matches Err(DataError::Validation(e)) && e.has_field("title"@),
        post == pre,
        post.lists.len() == pre.lists.len(),
{
    let e = r->Err_0->Validation_0;
    assert(e@[0] == l.violations()[0]);
}

/// A private list is left out of the public listing, yet its exact key finds
/// it; a key that no list has finds nothing.
pub proof fn lemma_private_list_by_key(db: DbView, k: int, other_key: Seq<char>)
    requires
        db.wf(),
        0 <= k < db.lists.len(),
        db.lists[k].is_private,
        forall|i: int| 0 <= i < db.lists.len() ==> (#[trigger] db.lists[i]).key@ != other_key,
    ensures
        !db.public_lists().contains(db.lists[k]),
        db.list_by_key(db.lists[k].key@) == Some(db.lists[k]),
        db.list_by_key(other_key) is None,
{
    broadcast use vstd::seq_lib::group_filter_ensures;

    if db.public_lists().contains(db.lists[k]) {
        let m = choose|m: int| 0 <= m < db.public_lists().len() && db.public_lists()[m] == db.lists[k];
        lemma_filter_member(db.lists, list_is_public(), m);
    }
    lemma_lookup_unique_at(db.lists, list_with_key(db.lists[k].key@), list_keys(), db.lists[k].key@, k);
    lemma_lookup_none(db.lists, list_with_key(other_key));
}

/// Deleting a list deletes its items: the list is gone, no item names it, and
/// an item that named it is no longer found by its id.
pub proof fn lemma_delete_cascades(pre: DbView, post: DbView, id: i64, item_id: i64)
    requires
        pre.wf(),
        list_delete_done(pre, post, id),
        pre.item_by_id(item_id) matches Some(it) && it.list_id == id,
    ensures
        post.list_by_id(id) is None,
        post.items_of(id).len() == 0,
        post.item_by_id(item_id) is None,
{
    broadcast use vstd::seq_lib::group_filter_ensures;

    assert forall|i: int| 0 <= i < post.lists.len() implies !list_with_id(id)(
        #[trigger] post.lists[i],
    ) by {
        lemma_filter_member(pre.lists, list_other_than(id), i);
    }
    lemma_lookup_none(post.lists, list_with_id(id));
    if post.items_of(id).len() > 0 {
        lemma_filter_member(post.items, item_in_list(id), 0);
        let m = choose|m: int| 0 <= m < post.items.len() && post.items[m] == post.items_of(id)[0];
        lemma_filter_member(pre.items, item_outside_list(id), m);
    }
    lemma_lookup_some(pre.items, crate::db::item_with_id(item_id));
    assert forall|i: int| 0 <= i < post.items.len() implies !crate::db::item_with_id(item_id)(
        #[trigger] post.items[i],
    ) by {
        lemma_filter_member(pre.items, item_outside_list(id), i);
        let m = choose|m: int| 0 <= m < pre.items.len() && pre.items[m] == post.items[i];
        let j = choose|j: int| 0 <= j < pre.items.len() && pre.items[j] == pre.item_by_id(item_id)->Some_0;
        if post.items[i].id == item_id {
            assert(pre.items[m].id == pre.items[j].id);
            assert(m == j);
        }
    }
    lemma_lookup_none(post.items, crate::db::item_with_id(item_id));
}

} // verus!
