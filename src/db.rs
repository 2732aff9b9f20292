//! The repository: every stored entity, behind one handle whose operations
//! validate before they write and return the row as stored.
//!
//! Deleting a list deletes its items; deleting a user deletes its sessions.
use vstd::prelude::*;

use crate::models::user::Timestamp;
use crate::models::user_session::is_expired;
use crate::models::{Item, List, User, UserSession};
use crate::rows::{distinct_by, lookup};
use crate::validation::ValidationErrors;

pub mod items;
pub mod lists;
pub mod sessions;
pub mod users;

verus! {

/// A failure of the store that the caller cannot fix by editing a form.
#[derive(PartialEq, Eq, Structural, Debug, Clone, Copy)]
pub enum StorageError {
    /// The row to update does not exist.
    RowNotFound,
    /// Another list already has this key.
    DuplicateKey,
    /// Another user already has this username.
    DuplicateUsername,
    /// Another session already has this token.
    DuplicateToken,
    /// The list that an item names does not exist.
    MissingList,
    /// The user that a session names does not exist.
    MissingUser,
    /// No id is left to assign.
    IdsExhausted,
    /// A row being restored has an id below the next one of its table.
    IdOutOfOrder,
}

/// Why a write did not happen.
#[derive(Debug, Clone)]
pub enum DataError {
    /// The fields broke rules; every violated rule is listed.
    Validation(ValidationErrors),
    /// The store refused the write.
    Storage(StorageError),
    /// Another failure, such as one of the password hasher.
    Other(String),
}

/// The mathematical content of the store: each table in insertion order, and
/// the id that each table assigns next.
pub struct DbView {
    pub lists: Seq<List>,
    pub items: Seq<Item>,
    pub users: Seq<User>,
    pub sessions: Seq<UserSession>,
    pub next_list_id: i64,
    pub next_item_id: i64,
    pub next_user_id: i64,
    pub next_session_id: i64,
}

pub open spec fn list_ids() -> spec_fn(List) -> i64 {
    |l: List| l.id
}

pub open spec fn list_keys() -> spec_fn(List) -> Seq<char> {
    |l: List| l.key@
}

pub open spec fn item_ids() -> spec_fn(Item) -> i64 {
    |i: Item| i.id
}

pub open spec fn user_ids() -> spec_fn(User) -> i64 {
    |u: User| u.id
}

pub open spec fn usernames() -> spec_fn(User) -> Seq<char> {
    |u: User| u.username@
}

pub open spec fn session_ids() -> spec_fn(UserSession) -> i64 {
    |s: UserSession| s.id
}

pub open spec fn session_tokens() -> spec_fn(UserSession) -> Seq<char> {
    |s: UserSession| s.token@
}

pub open spec fn list_with_id(id: i64) -> spec_fn(List) -> bool {
    |l: List| l.id == id
}

pub open spec fn list_with_key(key: Seq<char>) -> spec_fn(List) -> bool {
    |l: List| l.key@ == key
}

pub open spec fn list_is_public() -> spec_fn(List) -> bool {
    |l: List| !l.is_private
}

pub open spec fn list_other_than(id: i64) -> spec_fn(List) -> bool {
    |l: List| l.id != id
}

pub open spec fn item_with_id(id: i64) -> spec_fn(Item) -> bool {
    |i: Item| i.id == id
}

pub open spec fn item_in_list(list_id: i64) -> spec_fn(Item) -> bool {
    |i: Item| i.list_id == list_id
}

pub open spec fn item_other_than(id: i64) -> spec_fn(Item) -> bool {
    |i: Item| i.id != id
}

pub open spec fn item_outside_list(list_id: i64) -> spec_fn(Item) -> bool {
    |i: Item| i.list_id != list_id
}

pub open spec fn user_with_id(id: i64) -> spec_fn(User) -> bool {
    |u: User| u.id == id
}

pub open spec fn user_with_username(username: Seq<char>) -> spec_fn(User) -> bool {
    |u: User| u.username@ == username
}

pub open spec fn user_other_than(id: i64) -> spec_fn(User) -> bool {
    |u: User| u.id != id
}

pub open spec fn session_with_token(token: Seq<char>) -> spec_fn(UserSession) -> bool {
    |s: UserSession| s.token@ == token
}

pub open spec fn session_without_token(token: Seq<char>) -> spec_fn(UserSession) -> bool {
    |s: UserSession| s.token@ != token
}

pub open spec fn session_of_other_user(user_id: i64) -> spec_fn(UserSession) -> bool {
    |s: UserSession| s.user_id != user_id
}

impl DbView {
    pub open spec fn list_by_id(self, id: i64) -> Option<List> {
        lookup(self.lists, list_with_id(id))
    }

    pub open spec fn list_by_key(self, key: Seq<char>) -> Option<List> {
        lookup(self.lists, list_with_key(key))
    }

    /// The lists that anyone may enumerate, in insertion order.
    pub open spec fn public_lists(self) -> Seq<List> {
        self.lists.filter(list_is_public())
    }

    pub open spec fn item_by_id(self, id: i64) -> Option<Item> {
        lookup(self.items, item_with_id(id))
    }

    /// The item with `id`, if it belongs to the list `list_id`.
    pub open spec fn item_in_list_by_id(self, list_id: i64, id: i64) -> Option<Item> {
        match self.item_by_id(id) {
            Some(i) => if i.list_id == list_id {
                Some(i)
            } else {
                None
            },
            None => None,
        }
    }

    /// The items of a list, in insertion order.
    pub open spec fn items_of(self, list_id: i64) -> Seq<Item> {
        self.items.filter(item_in_list(list_id))
    }

    pub open spec fn user_by_id(self, id: i64) -> Option<User> {
        lookup(self.users, user_with_id(id))
    }

    pub open spec fn user_by_username(self, username: Seq<char>) -> Option<User> {
        lookup(self.users, user_with_username(username))
    }

    pub open spec fn session_by_token(self, token: Seq<char>) -> Option<UserSession> {
        lookup(self.sessions, session_with_token(token))
    }

    /// The session with `token`, unless it has expired at `at`: an expired
    /// session counts as absent whether or not it has been purged.
    pub open spec fn live_session(self, token: Seq<char>, at: Timestamp) -> Option<UserSession> {
        match self.session_by_token(token) {
            Some(s) => if is_expired(s.created_at, at) {
                None
            } else {
                Some(s)
            },
            None => None,
        }
    }

    pub open spec fn lists_wf(self) -> bool {
        &&& 1 <= self.next_list_id
        &&& self.lists.len() < self.next_list_id
        &&& forall|i: int|
            0 <= i < self.lists.len() ==> 0 < (#[trigger] self.lists[i]).id < self.next_list_id
        &&& distinct_by(self.lists, list_ids())
        &&& distinct_by(self.lists, list_keys())
    }

    pub open spec fn items_wf(self) -> bool {
        &&& 1 <= self.next_item_id
        &&& self.items.len() < self.next_item_id
        &&& forall|i: int|
            0 <= i < self.items.len() ==> 0 < (#[trigger] self.items[i]).id < self.next_item_id
                && self.list_by_id(self.items[i].list_id) is Some
        &&& distinct_by(self.items, item_ids())
    }

    pub open spec fn users_wf(self) -> bool {
        &&& 1 <= self.next_user_id
        &&& self.users.len() < self.next_user_id
        &&& forall|i: int|
            0 <= i < self.users.len() ==> 0 < (#[trigger] self.users[i]).id < self.next_user_id
        &&& distinct_by(self.users, user_ids())
        &&& distinct_by(self.users, usernames())
    }

    pub open spec fn sessions_wf(self) -> bool {
        &&& 1 <= self.next_session_id
        &&& self.sessions.len() < self.next_session_id
        &&& forall|i: int|
            0 <= i < self.sessions.len() ==> 0 < (#[trigger] self.sessions[i]).id
                < self.next_session_id && self.user_by_id(self.sessions[i].user_id) is Some
        &&& distinct_by(self.sessions, session_ids())
        &&& distinct_by(self.sessions, session_tokens())
    }

    /// Ids are positive, unique and below the next one; keys, usernames and
    /// tokens are unique; every item names a stored list and every session a
    /// stored user.
    pub open spec fn wf(self) -> bool {
        &&& self.lists_wf()
        &&& self.items_wf()
        &&& self.users_wf()
        &&& self.sessions_wf()
    }
}

/// The store.
pub struct WishlistDb {
    lists: Vec<List>,
    items: Vec<Item>,
    users: Vec<User>,
    sessions: Vec<UserSession>,
    next_list_id: i64,
    next_item_id: i64,
    next_user_id: i64,
    next_session_id: i64,
}

impl View for WishlistDb {
    type V = DbView;

    closed spec fn view(&self) -> DbView {
        DbView {
            lists: self.lists@,
            items: self.items@,
            users: self.users@,
            sessions: self.sessions@,
            next_list_id: self.next_list_id,
            next_item_id: self.next_item_id,
            next_user_id: self.next_user_id,
            next_session_id: self.next_session_id,
        }
    }
}

/// The larger of two ids.
pub open spec fn max_id(a: i64, b: i64) -> i64 {
    if a < b {
        b
    } else {
        a
    }
}

impl WishlistDb {
    /// The lists, in insertion order.
    pub fn lists(&self) -> (r: &Vec<List>)
        ensures
            r@ == self@.lists,
    {
        &self.lists
    }

    /// The items, in insertion order.
    pub fn items(&self) -> (r: &Vec<Item>)
        ensures
            r@ == self@.items,
    {
        &self.items
    }

    /// The users, with their hashes, in insertion order.
    pub fn users(&self) -> (r: &Vec<User>)
        ensures
            r@ == self@.users,
    {
        &self.users
    }

    /// The sessions, in insertion order.
    pub fn sessions(&self) -> (r: &Vec<UserSession>)
        ensures
            r@ == self@.sessions,
    {
        &self.sessions
    }

    /// The ids that each table assigns next: lists, items, users, sessions.
    pub fn next_ids(&self) -> (r: (i64, i64, i64, i64))
        ensures
            r == (self@.next_list_id, self@.next_item_id, self@.next_user_id, self@.next_session_id),
    {
        (self.next_list_id, self.next_item_id, self.next_user_id, self.next_session_id)
    }

    /// Raises the id that each table assigns next to at least the one given,
    /// so that ids of deleted rows are not handed out again after a restore.
    pub fn advance_ids(&mut self, list: i64, item: i64, user: i64, session: i64)
        requires
            old(self)@.wf(),
        ensures
            final(self)@.wf(),
            final(self)@ == (DbView {
                next_list_id: max_id(old(self)@.next_list_id, list),
                next_item_id: max_id(old(self)@.next_item_id, item),
                next_user_id: max_id(old(self)@.next_user_id, user),
                next_session_id: max_id(old(self)@.next_session_id, session),
                ..old(self)@
            }),
    {
        if self.next_list_id < list {
            self.next_list_id = list;
        }
        if self.next_item_id < item {
            self.next_item_id = item;
        }
        if self.next_user_id < user {
            self.next_user_id = user;
        }
        if self.next_session_id < session {
            self.next_session_id = session;
        }
    }

    /// An empty store.
    pub fn new() -> (r: WishlistDb)
        ensures
            r@.wf(),
            r@.lists.len() == 0,
            r@.items.len() == 0,
            r@.users.len() == 0,
            r@.sessions.len() == 0,
            r@.next_list_id == 1 && r@.next_item_id == 1 && r@.next_user_id == 1
                && r@.next_session_id == 1,
    {
        WishlistDb {
            lists: Vec::new(),
            items: Vec::new(),
            users: Vec::new(),
            sessions: Vec::new(),
            next_list_id: 1,
            next_item_id: 1,
            next_user_id: 1,
            next_session_id: 1,
        }
    }
}

} // verus!
