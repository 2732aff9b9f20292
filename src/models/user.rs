use vstd::prelude::*;

verus! {

/// Seconds since the Unix epoch, UTC.
pub type Timestamp = i64;

/// A registered user.
#[derive(Debug, Clone)]
pub struct User {
    pub id: i64,
    pub username: String,
    pub email: String,
    /// The bcrypt hash of the password; never handed out by listings or writes.
    pub password_hash: String,
    pub created_at: Timestamp,
    pub updated_at: Timestamp,
}

/// `shown` is `stored` with its password hash left out.
pub open spec fn without_hash(shown: User, stored: User) -> bool {
    &&& shown.id == stored.id
    &&& shown.username == stored.username
    &&& shown.email == stored.email
    &&& shown.password_hash@.len() == 0
    &&& shown.created_at == stored.created_at
    &&& shown.updated_at == stored.updated_at
}

impl User {
    /// Creates a new user without saving it to the database.
    pub fn new(username: String, email: String, password_hash: String) -> (r: User)
        ensures
            r.id == 0,
            r.username == username,
            r.email == email,
            r.password_hash == password_hash,
            r.created_at == 0,
            r.updated_at == 0,
    {
        User { id: 0, username, email, password_hash, created_at: 0, updated_at: 0 }
    }

    /// A field-for-field copy.
    pub fn duplicate(&self) -> (r: User)
        ensures
            r == *self,
    {
        User {
            id: self.id,
            username: self.username.clone(),
            email: self.email.clone(),
            password_hash: self.password_hash.clone(),
            created_at: self.created_at,
            updated_at: self.updated_at,
        }
    }

    /// A copy without the password hash.
    pub fn public_copy(&self) -> (r: User)
        ensures
            without_hash(r, *self),
    {
        User {
            id: self.id,
            username: self.username.clone(),
            email: self.email.clone(),
            password_hash: String::new(),
            created_at: self.created_at,
            updated_at: self.updated_at,
        }
    }
}

} // verus!
