use vstd::prelude::*;

use crate::models::user::Timestamp;

verus! {

/// Seconds a session stays valid after its creation: seven days.
pub const SESSION_MAX_AGE: i64 = 604800;

/// A session created at `created_at` has expired at `now`: it is older than
/// seven days.
pub open spec fn is_expired(created_at: Timestamp, now: Timestamp) -> bool {
    (created_at as int) < (now as int) - (SESSION_MAX_AGE as int)
}

/// Decides `is_expired` without overflow.
pub fn expired(created_at: Timestamp, now: Timestamp) -> (r: bool)
    ensures
        r == is_expired(created_at, now),
{
    if now < i64::MIN + SESSION_MAX_AGE {
        false
    } else {
        created_at < now - SESSION_MAX_AGE
    }
}

/// A logged-in session of a user.
#[derive(Debug, Clone)]
pub struct UserSession {
    pub id: i64,
    /// The bearer token that the session cookie carries.
    pub token: String,
    pub user_id: i64,
    pub created_at: Timestamp,
    pub updated_at: Timestamp,
}

impl UserSession {
    /// A field-for-field copy.
    pub fn duplicate(&self) -> (r: UserSession)
        ensures
            r == *self,
    {
        UserSession {
            id: self.id,
            token: self.token.clone(),
            user_id: self.user_id,
            created_at: self.created_at,
            updated_at: self.updated_at,
        }
    }
}

} // verus!
