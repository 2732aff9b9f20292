use vstd::prelude::*;
use vstd::string::StringExecFns;

use crate::db::{
    session_ids, session_of_other_user, session_tokens, user_ids, user_other_than, user_with_id,
    user_with_username, usernames, DataError, DbView, StorageError, WishlistDb,
};
use crate::models::user::{without_hash, Timestamp};
use crate::models::{User, UserSession};
use crate::rows::{
    lemma_filter_distinct, lemma_filter_keeps, lemma_filter_member, lemma_filter_step,
    lemma_lookup_none, lemma_lookup_unique_at,
};
use crate::util::now;

verus! {

/// `u` as the store keeps it once inserted under `id` at time `at`.
pub open spec fn stored_user(u: User, id: i64, at: Timestamp) -> User {
    User {
        id,
        username: u.username,
        email: u.email,
        password_hash: u.password_hash,
        created_at: at,
        updated_at: at,
    }
}

/// What inserting `u` at time `at` does: the username must be free and an id
/// left; on success the row is appended, and returned without its hash.
pub open spec fn user_insert_done(
    pre: DbView,
    post: DbView,
    u: User,
    at: Timestamp,
    r: Result<User, DataError>,
) -> bool {
    if pre.user_by_username(u.username@) is Some {
        &&& post == pre
        &&& r == Err::<User, DataError>(DataError::Storage(StorageError::DuplicateUsername))
    } else if pre.next_user_id == i64::MAX {
        &&& post == pre
        &&& r == Err::<User, DataError>(DataError::Storage(StorageError::IdsExhausted))
    } else {
        let c = stored_user(u, pre.next_user_id, at);
        &&& r matches Ok(shown) && without_hash(shown, c)
        &&& post == (DbView {
            users: pre.users.push(c),
            next_user_id: (pre.next_user_id + 1) as i64,
            ..pre
        })
    }
}

/// `pre` with `id` as the next user id.
pub open spec fn next_user_id_at(pre: DbView, id: i64) -> DbView {
    DbView { next_user_id: id, ..pre }
}

/// Puts `u` in place of the row with its id.
pub open spec fn replace_user(u: User) -> spec_fn(User) -> User {
    |x: User| if x.id == u.id { u } else { x }
}

/// Whether another user than `id` has `username`.
pub open spec fn username_taken_by_other(pre: DbView, username: Seq<char>, id: i64) -> bool {
    pre.user_by_username(username) matches Some(o) && o.id != id
}

/// What updating with `u` at time `at` does: the row with `u.id` takes its
/// username and email and the time; hash and creation time stay.
pub open spec fn user_update_done(
    pre: DbView,
    post: DbView,
    u: User,
    at: Timestamp,
    r: Result<User, DataError>,
) -> bool {
    if pre.user_by_id(u.id) is None {
        &&& post == pre
        &&& r == Err::<User, DataError>(DataError::Storage(StorageError::RowNotFound))
    } else if username_taken_by_other(pre, u.username@, u.id) {
        &&& post == pre
        &&& r == Err::<User, DataError>(DataError::Storage(StorageError::DuplicateUsername))
    } else {
        let o = pre.user_by_id(u.id)->Some_0;
        let c = User {
            id: u.id,
            username: u.username,
            email: u.email,
            password_hash: o.password_hash,
            created_at: o.created_at,
            updated_at: at,
        };
        &&& r matches Ok(shown) && without_hash(shown, c)
        &&& post == (DbView { users: pre.users.map_values(replace_user(c)), ..pre })
    }
}

/// What deleting the user `id` does: the user and its sessions are gone.
pub open spec fn user_delete_done(pre: DbView, post: DbView, id: i64) -> bool {
    post == (DbView {
        users: pre.users.filter(user_other_than(id)),
        sessions: pre.sessions.filter(session_of_other_user(id)),
        ..pre
    })
}

/// Session references stay valid when every user keeps its id at its index.
proof fn lemma_users_keep_ids(pre: DbView, post: DbView)
    requires
        pre.sessions_wf(),
        post.sessions == pre.sessions,
        post.next_session_id == pre.next_session_id,
        pre.users.len() <= post.users.len(),
        forall|j: int| 0 <= j < pre.users.len() ==> (#[trigger] post.users[j]).id == pre.users[j].id,
    ensures
        post.sessions_wf(),
{
    assert forall|i: int| 0 <= i < post.sessions.len() implies 0 < (#[trigger] post.sessions[i]).id
        < post.next_session_id && post.user_by_id(post.sessions[i].user_id) is Some by {
        let uid = post.sessions[i].user_id;
        assert(pre.user_by_id(uid) is Some);
        let j = choose|j: int| 0 <= j < pre.users.len() && user_with_id(uid)(pre.users[j]);
        assert(post.users[j].id == pre.users[j].id);
        assert(user_with_id(uid)(post.users[j]));
    }
}

pub(crate) proof fn lemma_users_push(pre: DbView, c: User)
    requires
        pre.wf(),
        c.id == pre.next_user_id,
        pre.next_user_id < i64::MAX,
        pre.user_by_username(c.username@) is None,
    ensures
        (DbView { users: pre.users.push(c), next_user_id: (pre.next_user_id + 1) as i64, ..pre }).wf(),
{
    let post = DbView {
        users: pre.users.push(c),
        next_user_id: (pre.next_user_id + 1) as i64,
        ..pre
    };
    assert forall|j: int| 0 <= j < pre.users.len() implies (#[trigger] pre.users[j]).username@
        != c.username@ by {
        if pre.users[j].username@ == c.username@ {
            assert(user_with_username(c.username@)(pre.users[j]));
        }
    }
    assert forall|i: int, j: int|
        0 <= i < post.users.len() && 0 <= j < post.users.len() && i != j implies (#[trigger] post.users[i]).id
        != (#[trigger] post.users[j]).id && post.users[i].username@ != post.users[j].username@ by {
        if i < pre.users.len() {
            assert(post.users[i] == pre.users[i]);
        }
        if j < pre.users.len() {
            assert(post.users[j] == pre.users[j]);
        }
    }
    assert forall|j: int| 0 <= j < pre.users.len() implies (#[trigger] post.users[j]).id
        == pre.users[j].id by {
        assert(post.users[j] == pre.users[j]);
    }
    assert(post.users_wf());
    lemma_users_keep_ids(pre, post);
}

proof fn lemma_users_update(pre: DbView, k: int, c: User)
    requires
        pre.wf(),
        0 <= k < pre.users.len(),
        pre.users[k].id == c.id,
        !username_taken_by_other(pre, c.username@, c.id),
    ensures
        (DbView { users: pre.users.map_values(replace_user(c)), ..pre }).wf(),
{
    let post = DbView { users: pre.users.map_values(replace_user(c)), ..pre };
    assert forall|i: int| 0 <= i < pre.users.len() && i != k implies (#[trigger] pre.users[i]).username@
        != c.username@ by {
        if pre.users[i].username@ == c.username@ {
            lemma_lookup_unique_at(pre.users, user_with_username(c.username@), usernames(), c.username@, i);
            assert(pre.users[i].id != pre.users[k].id);
        }
    }
    assert forall|i: int| 0 <= i < pre.users.len() implies (#[trigger] post.users[i]).id
        == pre.users[i].id && (i != k ==> post.users[i] == pre.users[i]) && (i == k ==> post.users[i] == c) by {
        if pre.users[i].id == c.id {
            assert(i == k);
        }
    }
    assert forall|i: int, j: int|
        0 <= i < post.users.len() && 0 <= j < post.users.len() && i != j implies (#[trigger] post.users[i]).id
        != (#[trigger] post.users[j]).id && post.users[i].username@ != post.users[j].username@ by {
        assert(pre.users[i].id != pre.users[j].id);
        assert(pre.users[i].username@ != pre.users[j].username@);
    }
    assert(post.users_wf());
    lemma_users_keep_ids(pre, post);
}

proof fn lemma_users_delete(pre: DbView, id: i64)
    requires
        pre.wf(),
    ensures
        (DbView {
            users: pre.users.filter(user_other_than(id)),
            sessions: pre.sessions.filter(session_of_other_user(id)),
            ..pre
        }).wf(),
{
    let up = user_other_than(id);
    let sp = session_of_other_user(id);
    let post = DbView { users: pre.users.filter(up), sessions: pre.sessions.filter(sp), ..pre };
    broadcast use vstd::seq_lib::group_filter_ensures;

    lemma_filter_distinct(pre.users, up, user_ids());
    lemma_filter_distinct(pre.users, up, usernames());
    lemma_filter_distinct(pre.sessions, sp, session_ids());
    lemma_filter_distinct(pre.sessions, sp, session_tokens());
    assert forall|i: int| 0 <= i < post.users.len() implies 0 < (#[trigger] post.users[i]).id
        < post.next_user_id by {
        lemma_filter_member(pre.users, up, i);
    }
    assert forall|i: int| 0 <= i < post.sessions.len() implies 0 < (#[trigger] post.sessions[i]).id
        < post.next_session_id && post.user_by_id(post.sessions[i].user_id) is Some by {
        lemma_filter_member(pre.sessions, sp, i);
        let m = choose|m: int| 0 <= m < pre.sessions.len() && pre.sessions[m] == post.sessions[i];
        let uid = pre.sessions[m].user_id;
        assert(pre.user_by_id(uid) is Some);
        let j = choose|j: int| 0 <= j < pre.users.len() && user_with_id(uid)(pre.users[j]);
        assert(up(pre.users[j]));
        lemma_filter_keeps(pre.users, up, j);
        let k = choose|k: int| 0 <= k < post.users.len() && post.users[k] == pre.users[j];
        assert(user_with_id(uid)(post.users[k]));
    }
}

/// The index of the user with `id`, if one is stored.
pub(crate) fn user_position(db: &WishlistDb, id: i64) -> (r: Option<usize>)
    requires
        db@.wf(),
    ensures
        match r {
            Some(k) => k < db@.users.len() && db@.users[k as int].id == id && db@.user_by_id(id)
                == Some(db@.users[k as int]),
            None => db@.user_by_id(id) is None,
        },
{
    let mut i: usize = 0;
    while i < db.users.len()
        invariant
            db@.wf(),
            i <= db@.users.len(),
            forall|j: int| 0 <= j < i ==> (#[trigger] db@.users[j]).id != id,
        decreases db@.users.len() - i,
    {
        if db.users[i].id == id {
            proof {
                lemma_lookup_unique_at(db@.users, user_with_id(id), user_ids(), id, i as int);
            }
            return Some(i);
        }
        i += 1;
    }
    proof {
        lemma_lookup_none(db@.users, user_with_id(id));
    }
    None
}

/// The index of the user with `username`, if one is stored.
fn username_position(db: &WishlistDb, username: &String) -> (r: Option<usize>)
    requires
        db@.wf(),
    ensures
        match r {
            Some(k) => k < db@.users.len() && db@.user_by_username(username@) == Some(
                db@.users[k as int],
            ),
            None => db@.user_by_username(username@) is None,
        },
{
    let mut i: usize = 0;
    while i < db.users.len()
        invariant
            db@.wf(),
            i <= db@.users.len(),
            forall|j: int| 0 <= j < i ==> (#[trigger] db@.users[j]).username@ != username@,
        decreases db@.users.len() - i,
    {
        if db.users[i].username == *username {
            proof {
                lemma_lookup_unique_at(
                    db@.users,
                    user_with_username(username@),
                    usernames(),
                    username@,
                    i as int,
                );
            }
            return Some(i);
        }
        i += 1;
    }
    proof {
        lemma_lookup_none(db@.users, user_with_username(username@));
    }
    None
}

impl User {
    /// Shorthand for `User::new(...).save(db)`: creates a user, stamped with
    /// the current time, and returns it without its hash.
    pub fn create(db: &mut WishlistDb, username: &str, email: &str, password_hash: &str) -> (r:
        Result<User, DataError>)
        requires
            old(db)@.wf(),
        ensures
            final(db)@.wf(),
            exists|u: User, at: Timestamp|
                u.id == 0 && u.username@ == username@ && u.email@ == email@ && u.password_hash@
                    == password_hash@ && user_insert_done(old(db)@, final(db)@, u, at, r),
    {
        let u = User::new(
            String::from_str(username),
            String::from_str(email),
            String::from_str(password_hash),
        );
        u.do_insert(db, now())
    }

    /// Saves the user, stamped with the current time: inserts it when its id
    /// is 0, else updates the stored row with its id.
    pub fn save(self, db: &mut WishlistDb) -> (r: Result<User, DataError>)
        requires
            old(db)@.wf(),
        ensures
            final(db)@.wf(),
            exists|at: Timestamp|
                {
                    &&& self.id == 0 ==> user_insert_done(old(db)@, final(db)@, self, at, r)
                    &&& self.id != 0 ==> user_update_done(old(db)@, final(db)@, self, at, r)
                },
    {
        let at = now();
        if self.id == 0 {
            self.do_insert(db, at)
        } else {
            self.do_update(db, at)
        }
    }

    /// Returns all users, each without its hash, in insertion order.
    pub fn all(db: &WishlistDb) -> (r: Vec<User>)
        ensures
            r@.len() == db@.users.len(),
            forall|i: int| 0 <= i < r@.len() ==> without_hash(#[trigger] r@[i], db@.users[i]),
    {
        let mut out: Vec<User> = Vec::new();
        let mut i: usize = 0;
        while i < db.users.len()
            invariant
                i <= db@.users.len(),
                out@.len() == i,
                forall|j: int| 0 <= j < i ==> without_hash(#[trigger] out@[j], db@.users[j]),
            decreases db@.users.len() - i,
        {
            out.push(db.users[i].public_copy());
            i += 1;
        }
        out
    }

    /// Returns the user with the given id, or `None` if no user has it.
    pub fn find_by_id(db: &WishlistDb, id: i64) -> (r: Option<User>)
        requires
            db@.wf(),
        ensures
            r == db@.user_by_id(id),
    {
        match user_position(db, id) {
            Some(k) => Some(db.users[k].duplicate()),
            None => None,
        }
    }

    /// Returns the user with the given username, or `None` if no user has it.
    pub fn find_by_username(db: &WishlistDb, username: &str) -> (r: Option<User>)
        requires
            db@.wf(),
        ensures
            r == db@.user_by_username(username@),
    {
        let username = String::from_str(username);
        match username_position(db, &username) {
            Some(k) => Some(db.users[k].duplicate()),
            None => None,
        }
    }

    /// Replaces the user's username and email and writes them, stamped with
    /// the current time.
    pub fn update(&mut self, db: &mut WishlistDb, username: &str, email: &str) -> (r: Result<
        User,
        DataError,
    >)
        requires
            old(db)@.wf(),
        ensures
            final(db)@.wf(),
            final(self).id == old(self).id,
            final(self).username@ == username@,
            final(self).email@ == email@,
            final(self).password_hash == old(self).password_hash,
            exists|at: Timestamp| user_update_done(old(db)@, final(db)@, *final(self), at, r),
    {
        self.username = String::from_str(username);
        self.email = String::from_str(email);
        self.do_update(db, now())
    }

    /// Deletes the user, and with it its sessions. A user that was never
    /// stored (id 0) is left alone; a deleted one gets id 0.
    pub fn destroy(&mut self, db: &mut WishlistDb) -> (r: Result<(), DataError>)
        requires
            old(db)@.wf(),
        ensures
            final(db)@.wf(),
            r is Ok,
            old(self).id == 0 ==> final(db)@ == old(db)@,
            old(self).id != 0 ==> user_delete_done(old(db)@, final(db)@, old(self).id),
            *final(self) == (User { id: 0, ..*old(self) }),
    {
        if self.id != 0 {
            let r = User::do_delete(db, self.id);
            self.id = 0;
            r
        } else {
            Ok(())
        }
    }

    /// Returns the number of users.
    pub fn count(db: &WishlistDb) -> (r: i64)
        requires
            db@.wf(),
        ensures
            r == db@.users.len(),
    {
        db.users.len() as i64
    }

    /// Stores a user under its own id, with its hash and times, as an insert
    /// at that id and its creation time does, followed by an update at its
    /// update time when that differs: the id must not be below the next one
    /// of the table.
    pub fn restore(self, db: &mut WishlistDb) -> (r: Result<User, DataError>)
        requires
            old(db)@.wf(),
        ensures
            final(db)@.wf(),
            self.id < old(db)@.next_user_id ==> final(db)@ == old(db)@ && r == Err::<User, DataError>(
                DataError::Storage(StorageError::IdOutOfOrder),
            ),
            self.id >= old(db)@.next_user_id ==> exists|mid: DbView, first: Result<User, DataError>|
                {
                    &&& #[trigger] user_insert_done(
                        next_user_id_at(old(db)@, self.id),
                        mid,
                        self,
                        self.created_at,
                        first,
                    )
                    &&& (first is Err || self.updated_at == self.created_at) ==> final(db)@ == mid
                        && r == first
                    &&& (first is Ok && self.updated_at != self.created_at) ==> user_update_done(
                        mid,
                        final(db)@,
                        self,
                        self.updated_at,
                        r,
                    )
                },
    {
        if self.id < db.next_user_id {
            return Err(DataError::Storage(StorageError::IdOutOfOrder));
        }
        let ghost bumped = next_user_id_at(old(db)@, self.id);
        db.next_user_id = self.id;
        assert(db@ == bumped);
        let copy = self.duplicate();
        let first = self.do_insert(db, copy.created_at);
        let ghost mid = db@;
        let ghost first_seen = first;
        assert(user_insert_done(bumped, mid, copy, copy.created_at, first_seen));
        match first {
            Ok(shown) => {
                if copy.updated_at != copy.created_at {
                    copy.do_update(db, copy.updated_at)
                } else {
                    Ok(shown)
                }
            },
            Err(e) => Err(e),
        }
    }

    /// Appends the user under the next id, created and updated at `at`.
    pub fn do_insert(self, db: &mut WishlistDb, at: Timestamp) -> (r: Result<User, DataError>)
        requires
            old(db)@.wf(),
        ensures
            final(db)@.wf(),
            user_insert_done(old(db)@, final(db)@, self, at, r),
    {
        if username_position(db, &self.username).is_some() {
            return Err(DataError::Storage(StorageError::DuplicateUsername));
        }
        if db.next_user_id == i64::MAX {
            return Err(DataError::Storage(StorageError::IdsExhausted));
        }
        let c = User {
            id: db.next_user_id,
            username: self.username,
            email: self.email,
            password_hash: self.password_hash,
            created_at: at,
            updated_at: at,
        };
        proof {
            lemma_users_push(db@, c);
        }
        let shown = c.public_copy();
        db.users.push(c);
        db.next_user_id = db.next_user_id + 1;
        Ok(shown)
    }

    /// Writes the user's username and email over the stored row with its id,
    /// updated at `at`.
    pub fn do_update(&self, db: &mut WishlistDb, at: Timestamp) -> (r: Result<User, DataError>)
        requires
            old(db)@.wf(),
        ensures
            final(db)@.wf(),
            user_update_done(old(db)@, final(db)@, *self, at, r),
    {
        let k = match user_position(db, self.id) {
            Some(k) => k,
            None => {
                return Err(DataError::Storage(StorageError::RowNotFound));
            },
        };
        match username_position(db, &self.username) {
            Some(m) => {
                if db.users[m].id != self.id {
                    return Err(DataError::Storage(StorageError::DuplicateUsername));
                }
            },
            None => {},
        }
        let c = User {
            id: self.id,
            username: self.username.clone(),
            email: self.email.clone(),
            password_hash: db.users[k].password_hash.clone(),
            created_at: db.users[k].created_at,
            updated_at: at,
        };
        let ghost pre = db@;
        proof {
            lemma_users_update(pre, k as int, c);
        }
        let shown = c.public_copy();
        db.users.set(k, c);
        proof {
            assert forall|i: int| 0 <= i < pre.users.len() implies
                #[trigger] db@.users[i] == (if pre.users[i].id == c.id { c } else { pre.users[i] }) by {
                if pre.users[i].id == c.id {
                    assert(i == k);
                }
            }
            assert(db@.users =~= pre.users.map_values(replace_user(c)));
            assert(db@ == (DbView { users: pre.users.map_values(replace_user(c)), ..pre }));
        }
        Ok(shown)
    }

    /// Deletes the user with `id`, if stored, and every session of it.
    pub fn do_delete(db: &mut WishlistDb, id: i64) -> (r: Result<(), DataError>)
        requires
            old(db)@.wf(),
        ensures
            final(db)@.wf(),
            r is Ok,
            user_delete_done(old(db)@, final(db)@, id),
    {
        let ghost pre = db@;
        let mut kept: Vec<User> = Vec::new();
        let mut i: usize = 0;
        while i < db.users.len()
            invariant
                db@ == pre,
                i <= pre.users.len(),
                kept@ == pre.users.take(i as int).filter(user_other_than(id)),
            decreases pre.users.len() - i,
        {
            if db.users[i].id != id {
                kept.push(db.users[i].duplicate());
            }
            proof {
                lemma_filter_step(pre.users, user_other_than(id), i as int);
            }
            i += 1;
        }
        let mut kept_sessions: Vec<UserSession> = Vec::new();
        let mut i: usize = 0;
        while i < db.sessions.len()
            invariant
                db@ == pre,
                i <= pre.sessions.len(),
                kept_sessions@ == pre.sessions.take(i as int).filter(session_of_other_user(id)),
            decreases pre.sessions.len() - i,
        {
            if db.sessions[i].user_id != id {
                kept_sessions.push(db.sessions[i].duplicate());
            }
            proof {
                lemma_filter_step(pre.sessions, session_of_other_user(id), i as int);
            }
            i += 1;
        }
        proof {
            assert(pre.users.take(pre.users.len() as int) =~= pre.users);
            assert(pre.sessions.take(pre.sessions.len() as int) =~= pre.sessions);
            lemma_users_delete(pre, id);
        }
        db.users = kept;
        db.sessions = kept_sessions;
        Ok(())
    }
}

} // verus!
