use vstd::prelude::*;
use vstd::string::StringExecFns;

use crate::db::{
    session_ids, session_tokens, session_with_token, session_without_token, DataError,
    DbView, StorageError, WishlistDb,
};
use crate::db::users::user_position;
use crate::models::user::Timestamp;
use crate::models::user_session::{expired, is_expired};
use crate::models::UserSession;
use crate::rows::{
    lemma_filter_distinct, lemma_filter_member, lemma_filter_step, lemma_lookup_none,
    lemma_lookup_unique_at,
};
use crate::util::now;

verus! {

/// The sessions that have not expired at `at`.
pub open spec fn session_current(at: Timestamp) -> spec_fn(UserSession) -> bool {
    |s: UserSession| !is_expired(s.created_at, at)
}

/// What inserting a session of `user_id` under `token` at time `at` does: the
/// token must be free, the user stored and an id left.
pub open spec fn session_insert_done(
    pre: DbView,
    post: DbView,
    token: String,
    user_id: i64,
    at: Timestamp,
    r: Result<UserSession, DataError>,
) -> bool {
    if pre.session_by_token(token@) is Some {
        &&& post == pre
        &&& r == Err::<UserSession, DataError>(DataError::Storage(StorageError::DuplicateToken))
    } else if pre.user_by_id(user_id) is None {
        &&& post == pre
        &&& r == Err::<UserSession, DataError>(DataError::Storage(StorageError::MissingUser))
    } else if pre.next_session_id == i64::MAX {
        &&& post == pre
        &&& r == Err::<UserSession, DataError>(DataError::Storage(StorageError::IdsExhausted))
    } else {
        let c = UserSession {
            id: pre.next_session_id,
            token,
            user_id,
            created_at: at,
            updated_at: at,
        };
        &&& r == Ok::<UserSession, DataError>(c)
        &&& post == (DbView {
            sessions: pre.sessions.push(c),
            next_session_id: (pre.next_session_id + 1) as i64,
            ..pre
        })
    }
}

/// Keeping only some sessions keeps the store well formed.
proof fn lemma_sessions_filter(pre: DbView, p: spec_fn(UserSession) -> bool)
    requires
        pre.wf(),
    ensures
        (DbView { sessions: pre.sessions.filter(p), ..pre }).wf(),
{
    let post = DbView { sessions: pre.sessions.filter(p), ..pre };
    broadcast use vstd::seq_lib::group_filter_ensures;

    lemma_filter_distinct(pre.sessions, p, session_ids());
    lemma_filter_distinct(pre.sessions, p, session_tokens());
    assert forall|i: int| 0 <= i < post.sessions.len() implies 0 < (#[trigger] post.sessions[i]).id
        < post.next_session_id && post.user_by_id(post.sessions[i].user_id) is Some by {
        lemma_filter_member(pre.sessions, p, i);
    }
}

pub(crate) proof fn lemma_sessions_push(pre: DbView, c: UserSession)
    requires
        pre.wf(),
        c.id == pre.next_session_id,
        pre.next_session_id < i64::MAX,
        pre.session_by_token(c.token@) is None,
        pre.user_by_id(c.user_id) is Some,
    ensures
        (DbView {
            sessions: pre.sessions.push(c),
            next_session_id: (pre.next_session_id + 1) as i64,
            ..pre
        }).wf(),
{
    let post = DbView {
        sessions: pre.sessions.push(c),
        next_session_id: (pre.next_session_id + 1) as i64,
        ..pre
    };
    assert forall|j: int| 0 <= j < pre.sessions.len() implies (#[trigger] pre.sessions[j]).token@
        != c.token@ by {
        if pre.sessions[j].token@ == c.token@ {
            assert(session_with_token(c.token@)(pre.sessions[j]));
        }
    }
    assert forall|i: int| 0 <= i < post.sessions.len() implies 0 < (#[trigger] post.sessions[i]).id
        < post.next_session_id && post.user_by_id(post.sessions[i].user_id) is Some by {
        if i < pre.sessions.len() {
            assert(post.sessions[i] == pre.sessions[i]);
        }
    }
    assert forall|i: int, j: int|
        0 <= i < post.sessions.len() && 0 <= j < post.sessions.len() && i != j implies
        (#[trigger] post.sessions[i]).id != (#[trigger] post.sessions[j]).id
            && post.sessions[i].token@ != post.sessions[j].token@ by {
        if i < pre.sessions.len() {
            assert(post.sessions[i] == pre.sessions[i]);
        }
        if j < pre.sessions.len() {
            assert(post.sessions[j] == pre.sessions[j]);
        }
    }
}

/// The index of the session with `token`, if one is stored.
fn token_position(db: &WishlistDb, token: &String) -> (r: Option<usize>)
    requires
        db@.wf(),
    ensures
        match r {
            Some(k) => k < db@.sessions.len() && db@.session_by_token(token@) == Some(
                db@.sessions[k as int],
            ),
            None => db@.session_by_token(token@) is None,
        },
{
    let mut i: usize = 0;
    while i < db.sessions.len()
        invariant
            db@.wf(),
            i <= db@.sessions.len(),
            forall|j: int| 0 <= j < i ==> (#[trigger] db@.sessions[j]).token@ != token@,
        decreases db@.sessions.len() - i,
    {
        if db.sessions[i].token == *token {
            proof {
                lemma_lookup_unique_at(
                    db@.sessions,
                    session_with_token(token@),
                    session_tokens(),
                    token@,
                    i as int,
                );
            }
            return Some(i);
        }
        i += 1;
    }
    proof {
        lemma_lookup_none(db@.sessions, session_with_token(token@));
    }
    None
}

/// Deletes the sessions whose token is `drop_token`, or those that have
/// expired at `drop_before`.
fn retain_sessions(db: &mut WishlistDb, drop_token: Option<&String>, drop_before: Option<Timestamp>)
    requires
        old(db)@.wf(),
        drop_token is None || drop_before is None,
    ensures
        final(db)@.wf(),
        drop_token matches Some(t) ==> final(db)@ == (DbView {
            sessions: old(db)@.sessions.filter(session_without_token(t@)),
            ..old(db)@
        }),
        drop_before matches Some(at) ==> final(db)@ == (DbView {
            sessions: old(db)@.sessions.filter(session_current(at)),
            ..old(db)@
        }),
{
    let ghost pre = db@;
    let ghost p = match drop_token {
        Some(t) => session_without_token(t@),
        None => match drop_before {
            Some(at) => session_current(at),
            None => |s: UserSession| true,
        },
    };
    let mut kept: Vec<UserSession> = Vec::new();
    let mut i: usize = 0;
    while i < db.sessions.len()
        invariant
            db@ == pre,
            i <= pre.sessions.len(),
            kept@ == pre.sessions.take(i as int).filter(p),
            p == match drop_token {
                Some(t) => session_without_token(t@),
                None => match drop_before {
                    Some(at) => session_current(at),
                    None => |s: UserSession| true,
                },
            },
            drop_token is None || drop_before is None,
        decreases pre.sessions.len() - i,
    {
        let keep = match drop_token {
            Some(t) => db.sessions[i].token != *t,
            None => match drop_before {
                Some(at) => !expired(db.sessions[i].created_at, at),
                None => true,
            },
        };
        if keep {
            kept.push(db.sessions[i].duplicate());
        }
        proof {
            lemma_filter_step(pre.sessions, p, i as int);
        }
        i += 1;
    }
    proof {
        assert(pre.sessions.take(pre.sessions.len() as int) =~= pre.sessions);
        lemma_sessions_filter(pre, p);
    }
    db.sessions = kept;
}

impl UserSession {
    /// Stores a session of `user_id` under `token`, created now.
    pub fn create(db: &mut WishlistDb, token: &str, user_id: i64) -> (r: Result<
        UserSession,
        DataError,
    >)
        requires
            old(db)@.wf(),
        ensures
            final(db)@.wf(),
            exists|t: String, at: Timestamp|
                t@ == token@ && session_insert_done(old(db)@, final(db)@, t, user_id, at, r),
    {
        UserSession::insert(db, String::from_str(token), user_id, now())
    }

    /// Stores a session of `user_id` under `token`, created at `at`.
    pub fn insert(db: &mut WishlistDb, token: String, user_id: i64, at: Timestamp) -> (r: Result<
        UserSession,
        DataError,
    >)
        requires
            old(db)@.wf(),
        ensures
            final(db)@.wf(),
            session_insert_done(old(db)@, final(db)@, token, user_id, at, r),
    {
        if token_position(db, &token).is_some() {
            return Err(DataError::Storage(StorageError::DuplicateToken));
        }
        if user_position(db, user_id).is_none() {
            return Err(DataError::Storage(StorageError::MissingUser));
        }
        if db.next_session_id == i64::MAX {
            return Err(DataError::Storage(StorageError::IdsExhausted));
        }
        let c = UserSession {
            id: db.next_session_id,
            token,
            user_id,
            created_at: at,
            updated_at: at,
        };
        proof {
            lemma_sessions_push(db@, c);
        }
        db.sessions.push(c.duplicate());
        db.next_session_id = db.next_session_id + 1;
        Ok(c)
    }

    /// Stores a session under its own id, as an insert at that id and its
    /// creation time does: the id must not be below the next one of the table.
    pub fn restore(self, db: &mut WishlistDb) -> (r: Result<UserSession, DataError>)
        requires
            old(db)@.wf(),
        ensures
            final(db)@.wf(),
            self.id < old(db)@.next_session_id ==> final(db)@ == old(db)@ && r == Err::<
                UserSession,
                DataError,
            >(DataError::Storage(StorageError::IdOutOfOrder)),
            self.id >= old(db)@.next_session_id ==> session_insert_done(
                DbView { next_session_id: self.id, ..old(db)@ },
                final(db)@,
                self.token,
                self.user_id,
                self.created_at,
                r,
            ),
    {
        if self.id < db.next_session_id {
            return Err(DataError::Storage(StorageError::IdOutOfOrder));
        }
        db.next_session_id = self.id;
        UserSession::insert(db, self.token, self.user_id, self.created_at)
    }

    /// Returns the session with `token` unless it has expired at `at`.
    pub fn find_by_token(db: &WishlistDb, token: &str, at: Timestamp) -> (r: Result<
        Option<UserSession>,
        DataError,
    >)
        requires
            db@.wf(),
        ensures
            r == Ok::<Option<UserSession>, DataError>(db@.live_session(token@, at)),
    {
        let token = String::from_str(token);
        match token_position(db, &token) {
            Some(k) => {
                if expired(db.sessions[k].created_at, at) {
                    Ok(None)
                } else {
                    Ok(Some(db.sessions[k].duplicate()))
                }
            },
            None => Ok(None),
        }
    }

    /// Returns the number of stored sessions, expired ones included until
    /// they are purged.
    pub fn count(db: &WishlistDb) -> (r: i64)
        requires
            db@.wf(),
        ensures
            r == db@.sessions.len(),
    {
        db.sessions.len() as i64
    }

    /// Deletes the session with `token`, if stored.
    pub fn destroy_by_token(db: &mut WishlistDb, token: &str) -> (r: Result<(), DataError>)
        requires
            old(db)@.wf(),
        ensures
            final(db)@.wf(),
            r is Ok,
            final(db)@ == (DbView {
                sessions: old(db)@.sessions.filter(session_without_token(token@)),
                ..old(db)@
            }),
    {
        let token = String::from_str(token);
        retain_sessions(db, Some(&token), None);
        Ok(())
    }

    /// Deletes every session that has expired now.
    pub fn destroy_outdated(db: &mut WishlistDb) -> (r: Result<(), DataError>)
        requires
            old(db)@.wf(),
        ensures
            final(db)@.wf(),
            r is Ok,
            exists|at: Timestamp|
                final(db)@ == (DbView {
                    sessions: old(db)@.sessions.filter(#[trigger] session_current(at)),
                    ..old(db)@
                }),
    {
        UserSession::destroy_outdated_at(db, now())
    }

    /// Deletes every session that has expired at `at`: those created more
    /// than seven days before it.
    pub fn destroy_outdated_at(db: &mut WishlistDb, at: Timestamp) -> (r: Result<(), DataError>)
        requires
            old(db)@.wf(),
        ensures
            final(db)@.wf(),
            r is Ok,
            final(db)@ == (DbView {
                sessions: old(db)@.sessions.filter(session_current(at)),
                ..old(db)@
            }),
    {
        retain_sessions(db, None, Some(at));
        Ok(())
    }
}

} // verus!
