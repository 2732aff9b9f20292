//! Registration, password checks, login, and the session manager that turns
//! a session cookie into the logged-in user.
use vstd::prelude::*;
use vstd::string::StringExecFns;

use crate::db::sessions::session_insert_done;
use crate::db::users::user_insert_done;
use crate::db::{DataError, DbView, WishlistDb};
use crate::models::user::Timestamp;
use crate::models::user_session::{is_expired, SESSION_MAX_AGE};
use crate::models::{User, UserSession};
use crate::util::{is_token, now, random_token};
use crate::validation::{
    length_within, within_bounds, ValidationError, ValidationErrors, Violation,
};

verus! {

pub const PASSWORD_MIN_LEN: u64 = 8;
pub const PASSWORD_MAX_LEN: u64 = 128;

/// The work factor that registration uses unless told otherwise.
pub const DEFAULT_COST: u32 = 12;

pub const PASSWORD_LENGTH_MESSAGE: &'static str = "Password must be longer than 8 characters.";
pub const PASSWORD_WORD_MESSAGE: &'static str = "Password cannot be 'password'";
pub const PASSWORD_HUNTER_MESSAGE: &'static str = "Nice try, but no.";
pub const PASSWORD_MATCH_MESSAGE: &'static str = "Passwords must match";

/// The name of the cookie that carries the session token.
pub const SESSION_COOKIE_NAME: &'static str = "session_id";

/// A registration form.
#[derive(Debug, Clone)]
pub struct NewUser {
    pub username: String,
    pub email: String,
    pub password: String,
    pub password_confirm: String,
}

/// A login form.
#[derive(Debug, Clone)]
pub struct UserLogin {
    pub username: String,
    pub password: String,
}

/// The message with which a trivial password is refused, if it is one.
pub open spec fn password_denial(password: Seq<char>) -> Option<Seq<char>> {
    if password == "password"@ {
        Some(PASSWORD_WORD_MESSAGE@)
    } else if password == "hunter2"@ {
        Some(PASSWORD_HUNTER_MESSAGE@)
    } else {
        None
    }
}

/// The violated rules of a registration form, in field order.
pub open spec fn new_user_violations(password: Seq<char>, confirm: Seq<char>) -> Seq<Violation> {
    (if within_bounds(password.len(), Some(PASSWORD_MIN_LEN), Some(PASSWORD_MAX_LEN)) {
        Seq::<Violation>::empty()
    } else {
        seq![("password"@, "length"@, PASSWORD_LENGTH_MESSAGE@)]
    }) + (match password_denial(password) {
        Some(m) => seq![("password"@, "insecure"@, m)],
        None => Seq::<Violation>::empty(),
    }) + (if confirm == password {
        Seq::<Violation>::empty()
    } else {
        seq![("password_confirm"@, "must_match"@, PASSWORD_MATCH_MESSAGE@)]
    })
}

/// Refuses the trivial passwords "password" and "hunter2".
pub fn validate_password(password: &str) -> (r: Result<(), ValidationError>)
    ensures
        match password_denial(password@) {
            Some(m) => r matches Err(e) && e.code@ == "insecure"@ && e.message@ == m,
            None => r is Ok,
        },
{
    let p = String::from_str(password);
    if p == String::from_str("password") {
        Err(
            ValidationError {
                code: String::from_str("insecure"),
                message: String::from_str(PASSWORD_WORD_MESSAGE),
            },
        )
    } else if p == String::from_str("hunter2") {
        Err(
            ValidationError {
                code: String::from_str("insecure"),
                message: String::from_str(PASSWORD_HUNTER_MESSAGE),
            },
        )
    } else {
        Ok(())
    }
}

impl NewUser {
    /// The rules of the form that `validate` reports as violated.
    pub open spec fn violations(&self) -> Seq<Violation> {
        new_user_violations(self.password@, self.password_confirm@)
    }

    /// Checks the password's length, that it is not trivial, and that the
    /// confirmation matches it; returns all violations together.
    pub fn validate(&self) -> (r: Result<(), ValidationErrors>)
        ensures
            r is Ok <==> self.violations().len() == 0,
            r matches Err(e) ==> e@ == self.violations(),
    {
        let mut errs = ValidationErrors::new();
        let password = self.password.as_str();
        if !length_within(password, Some(PASSWORD_MIN_LEN), Some(PASSWORD_MAX_LEN)) {
            errs.add("password", "length", PASSWORD_LENGTH_MESSAGE);
        }
        match validate_password(password) {
            Err(e) => errs.add("password", e.code.as_str(), e.message.as_str()),
            Ok(()) => {},
        }
        if self.password_confirm != self.password {
            errs.add("password_confirm", "must_match", PASSWORD_MATCH_MESSAGE);
        }
        assert(errs@ =~= self.violations());
        if errs.is_empty() {
            Ok(())
        } else {
            Err(errs)
        }
    }
}

/// What bcrypt's `verify` says of `password` against `hash`: `Some(true)` when
/// it matches, `Some(false)` when not, `None` when `hash` cannot be read.
pub uninterp spec fn bcrypt_verdict(password: Seq<char>, hash: Seq<char>) -> Option<bool>;

/// Relies on bcrypt::hash: it fails (with the error's text) when `cost` is
/// outside 4..=31, and a hash it returns is one that bcrypt::verify accepts
/// for the same password, as it re-hashes with the cost and salt it carries.
#[verifier::external_body]
fn hash_password(password: &str, cost: u32) -> (r: Result<String, String>)
    ensures
        (cost < 4 || cost > 31) ==> r is Err,
        r matches Ok(h) ==> bcrypt_verdict(password@, h@) == Some(true),
{
    bcrypt::hash(password, cost).map_err(|e| e.to_string())
}

/// Relies on bcrypt::verify: whether `password` matches `hash`, or the text of
/// the error when `hash` cannot be read.
#[verifier::external_body]
fn check_password(password: &str, hash: &str) -> (r: Result<bool, String>)
    ensures
        match r {
            Ok(b) => bcrypt_verdict(password@, hash@) == Some(b),
            Err(_) => bcrypt_verdict(password@, hash@) is None,
        },
{
    bcrypt::verify(password, hash).map_err(|e| e.to_string())
}

/// Why a login failed.
#[derive(Debug, Clone)]
pub enum AuthError {
    /// Unknown username or wrong password; the two are not told apart.
    InvalidLogin,
    /// The stored hash could not be read.
    Bcrypt(String),
}

impl AuthError {
    /// The text shown to the user.
    pub fn message(&self) -> (r: String)
        ensures
            *self is InvalidLogin ==> r@ == "Incorrect username or password"@,
            *self matches AuthError::Bcrypt(m) ==> r@ == "Bcrypt error: "@ + m@,
    {
        match self {
            AuthError::InvalidLogin => String::from_str("Incorrect username or password"),
            AuthError::Bcrypt(m) => String::from_str("Bcrypt error: ").concat(m.as_str()),
        }
    }
}

/// What preparing the form `u` gives: a form that breaks rules is refused
/// with all its violations; else an unsaved user with the form's username and
/// email and a hash that accepts the password, unless hashing fails.
pub open spec fn prepared(u: NewUser, r: Result<User, DataError>) -> bool {
    if u.violations().len() != 0 {
        r matches Err(DataError::Validation(e)) && e@ == u.violations()
    } else {
        match r {
            Ok(s) => {
                &&& s.id == 0
                &&& s.username@ == u.username@
                &&& s.email@ == u.email@
                &&& bcrypt_verdict(u.password@, s.password_hash@) == Some(true)
                &&& s.created_at == 0 && s.updated_at == 0
            },
            Err(e) => e is Other,
        }
    }
}

/// Validates the registration form and hashes the password with work factor
/// `cost`, giving the user to store. It does not touch the store, so the slow
/// hash can run while other requests use it.
pub fn prepare_new_user(user: &NewUser, cost: u32) -> (r: Result<User, DataError>)
    ensures
        prepared(*user, r),
        user.violations().len() == 0 && (cost < 4 || cost > 31) ==> r is Err,
{
    match user.validate() {
        Err(e) => {
            return Err(DataError::Validation(e));
        },
        Ok(()) => {},
    }
    match hash_password(user.password.as_str(), cost) {
        Ok(h) => Ok(User::new(user.username.clone(), user.email.clone(), h)),
        Err(m) => Err(DataError::Other(m)),
    }
}

/// What registering the form `u` does: a form that breaks rules is refused
/// with all its violations; else the password is hashed and the user stored
/// with that hash, unless hashing fails.
pub open spec fn register_done(
    pre: DbView,
    post: DbView,
    u: NewUser,
    r: Result<User, DataError>,
) -> bool {
    if u.violations().len() != 0 {
        &&& post == pre
        &&& r matches Err(DataError::Validation(e)) && e@ == u.violations()
    } else {
        ||| (post == pre && r is Err && r->Err_0 is Other)
        ||| exists|stored: User, at: Timestamp|
            {
                &&& prepared(u, Ok(stored))
                &&& #[trigger] user_insert_done(pre, post, stored, at, r)
            }
    }
}

/// Validates the registration form, hashes the password with work factor
/// `cost`, and stores the new user; the store refuses a taken username.
pub fn register_new_user(db: &mut WishlistDb, user: &NewUser, cost: u32) -> (r: Result<User, DataError>)
    requires
        old(db)@.wf(),
    ensures
        final(db)@.wf(),
        register_done(old(db)@, final(db)@, *user, r),
        user.violations().len() == 0 && (cost < 4 || cost > 31) ==> final(db)@ == old(db)@ && r is Err
            && r->Err_0 is Other,
{
    match prepare_new_user(user, cost) {
        Ok(u) => u.save(db),
        Err(e) => Err(e),
    }
}

/// The outcome of a login once the stored user's hash has been checked.
pub open spec fn login_accepted(user: User, verdict: Result<bool, String>, r: Result<User, AuthError>) -> bool {
    match verdict {
        Ok(true) => r == Ok::<User, AuthError>(user),
        Ok(false) => r == Err::<User, AuthError>(AuthError::InvalidLogin),
        Err(m) => r == Err::<User, AuthError>(AuthError::Bcrypt(m)),
    }
}

/// Decides a login from the stored user and bcrypt's verdict on the password.
pub fn accept_login(user: User, verdict: Result<bool, String>) -> (r: Result<User, AuthError>)
    ensures
        login_accepted(user, verdict, r),
{
    match verdict {
        Ok(true) => Ok(user),
        Ok(false) => Err(AuthError::InvalidLogin),
        Err(m) => Err(AuthError::Bcrypt(m)),
    }
}

/// A login is refused as `InvalidLogin` given the user found under its
/// username: none was found, or the password does not match its hash.
pub open spec fn login_refused_for(found: Option<User>, password: Seq<char>) -> bool {
    match found {
        None => true,
        Some(u) => bcrypt_verdict(password, u.password_hash@) == Some(false),
    }
}

/// A login is refused as `InvalidLogin`: the username is unknown, or the
/// password does not match its user's hash.
pub open spec fn login_refused(db: DbView, username: Seq<char>, password: Seq<char>) -> bool {
    login_refused_for(db.user_by_username(username), password)
}

/// What checking `password` against the user found under a login's username
/// gives.
pub open spec fn login_checked(found: Option<User>, password: Seq<char>, r: Result<User, AuthError>) -> bool {
    &&& login_refused_for(found, password) <==> r == Err::<User, AuthError>(AuthError::InvalidLogin)
    &&& r matches Ok(u) ==> found == Some(u) && bcrypt_verdict(password, u.password_hash@) == Some(true)
    &&& r matches Err(AuthError::Bcrypt(_)) ==> found matches Some(u) && bcrypt_verdict(
        password,
        u.password_hash@,
    ) is None
}

/// Checks a login's password against the user found under its username. It
/// does not touch the store, so the slow check can run while other requests
/// use it.
pub fn check_login(found: Option<User>, login: &UserLogin) -> (r: Result<User, AuthError>)
    ensures
        login_checked(found, login.password@, r),
{
    let user = match found {
        Some(u) => u,
        None => {
            return Err(AuthError::InvalidLogin);
        },
    };
    let verdict = check_password(login.password.as_str(), user.password_hash.as_str());
    accept_login(user, verdict)
}

/// Checks a login form against the stored users.
pub fn verify_user_login(db: &WishlistDb, login: &UserLogin) -> (r: Result<User, AuthError>)
    requires
        db@.wf(),
    ensures
        login_checked(db@.user_by_username(login.username@), login.password@, r),
{
    check_login(User::find_by_username(db, login.username.as_str()), login)
}

/// The SameSite policy of a cookie.
#[derive(PartialEq, Eq, Structural, Debug, Clone, Copy)]
pub enum SameSite {
    Strict,
    Lax,
}

/// A cookie that the client is told to keep.
#[derive(Debug, Clone)]
pub struct SessionCookie {
    pub name: String,
    pub value: String,
    pub path: String,
    pub http_only: bool,
    pub same_site: SameSite,
    /// Seconds the client keeps the cookie.
    pub max_age: i64,
}

/// The session cookie for `token`: HTTP-only, SameSite Strict, for the whole
/// application, kept seven days.
pub open spec fn is_session_cookie(c: SessionCookie, token: Seq<char>) -> bool {
    &&& c.name@ == SESSION_COOKIE_NAME@
    &&& c.value@ == token
    &&& c.path@ == "/"@
    &&& c.http_only
    &&& c.same_site == SameSite::Strict
    &&& c.max_age == SESSION_MAX_AGE
}

/// Builds the session cookie that carries `token`.
pub fn session_cookie(token: &str) -> (r: SessionCookie)
    ensures
        is_session_cookie(r, token@),
{
    SessionCookie {
        name: String::from_str(SESSION_COOKIE_NAME),
        value: String::from_str(token),
        path: String::from_str("/"),
        http_only: true,
        same_site: SameSite::Strict,
        max_age: SESSION_MAX_AGE,
    }
}

/// What starting a session of `user_id` under `token` at `at` does: the
/// session is stored as `session_insert_done` says, and its cookie returned.
pub open spec fn session_start_done(
    pre: DbView,
    post: DbView,
    user_id: i64,
    token: String,
    at: Timestamp,
    r: Result<(UserSession, SessionCookie), DataError>,
) -> bool {
    match r {
        Ok((s, c)) => session_insert_done(pre, post, token, user_id, at, Ok(s)) && is_session_cookie(
            c,
            token@,
        ),
        Err(e) => session_insert_done(pre, post, token, user_id, at, Err(e)),
    }
}

/// Stores a session of `user_id` under `token`, created at `at`, and returns
/// it with the cookie that carries it.
pub fn start_user_session(db: &mut WishlistDb, user_id: i64, token: String, at: Timestamp) -> (r:
    Result<(UserSession, SessionCookie), DataError>)
    requires
        old(db)@.wf(),
    ensures
        final(db)@.wf(),
        session_start_done(old(db)@, final(db)@, user_id, token, at, r),
{
    let cookie = session_cookie(token.as_str());
    match UserSession::insert(db, token, user_id, at) {
        Ok(s) => Ok((s, cookie)),
        Err(e) => Err(e),
    }
}

/// Logs `user` in: stores a session under a fresh random token, created now,
/// and returns it with the cookie that carries it.
pub fn create_user_session(db: &mut WishlistDb, user: &User) -> (r: Result<
    (UserSession, SessionCookie),
    DataError,
>)
    requires
        old(db)@.wf(),
    ensures
        final(db)@.wf(),
        exists|token: String, at: Timestamp|
            is_token(token@) && #[trigger] session_start_done(
                old(db)@,
                final(db)@,
                user.id,
                token,
                at,
                r,
            ),
{
    let token = random_token();
    start_user_session(db, user.id, token, now())
}

/// The token of an optional cookie value, as a sequence.
pub open spec fn token_view(token: Option<&str>) -> Option<Seq<char>> {
    match token {
        Some(t) => Some(t@),
        None => None,
    }
}

/// Logs out: with no session cookie nothing happens and `false` comes back;
/// else the session with its token is deleted and `true` comes back, telling
/// the caller to clear the cookie.
pub fn destroy_user_session(db: &mut WishlistDb, token: Option<&str>) -> (r: Result<bool, DataError>)
    requires
        old(db)@.wf(),
    ensures
        final(db)@.wf(),
        r == Ok::<bool, DataError>(token is Some),
        match token {
            None => final(db)@ == old(db)@,
            Some(t) => final(db)@ == (DbView {
                sessions: old(db)@.sessions.filter(crate::db::session_without_token(t@)),
                ..old(db)@
            }),
        },
{
    match token {
        None => Ok(false),
        Some(t) => {
            UserSession::destroy_by_token(db, t)?;
            Ok(true)
        },
    }
}

/// The user that a request with session cookie `token` acts for at time
/// `at`: none without a cookie, without a stored session for it, or when that
/// session has expired.
pub open spec fn session_user(db: DbView, token: Option<Seq<char>>, at: Timestamp) -> Option<User> {
    match token {
        None => None,
        Some(t) => match db.live_session(t, at) {
            None => None,
            Some(s) => db.user_by_id(s.user_id),
        },
    }
}

/// The user on whose behalf a request is handled.
#[derive(Debug, Clone)]
pub struct LoggedInUser {
    pub user: User,
}

impl LoggedInUser {
    pub fn new(user: User) -> (r: LoggedInUser)
        ensures
            r.user == user,
    {
        LoggedInUser { user }
    }

    /// Resolves the session cookie of a request at time `at`; reads only.
    pub fn from_session(db: &WishlistDb, token: Option<&str>, at: Timestamp) -> (r: Option<
        LoggedInUser,
    >)
        requires
            db@.wf(),
        ensures
            match r {
                Some(l) => session_user(db@, token_view(token), at) == Some(l.user),
                None => session_user(db@, token_view(token), at) is None,
            },
    {
        let t = match token {
            Some(t) => t,
            None => {
                return None;
            },
        };
        let session = match UserSession::find_by_token(db, t, at) {
            Ok(Some(s)) => s,
            _ => {
                return None;
            },
        };
        match User::find_by_id(db, session.user_id) {
            Some(u) => Some(LoggedInUser::new(u)),
            None => None,
        }
    }

    /// Resolves the session cookie of a request now; reads only.
    pub fn from_cookie(db: &WishlistDb, token: Option<&str>) -> (r: Option<LoggedInUser>)
        requires
            db@.wf(),
        ensures
            exists|at: Timestamp|
                match r {
                    Some(l) => #[trigger] session_user(db@, token_view(token), at) == Some(l.user),
                    None => session_user(db@, token_view(token), at) is None,
                },
    {
        LoggedInUser::from_session(db, token, now())
    }
}

} // verus!

verus! {

/// A session started for a stored user under a token that no session has
/// resolves to that user at any time within seven days of its start; once it
/// is destroyed, the same cookie resolves to no one.
pub proof fn lemma_session_round_trip(
    pre: DbView,
    mid: DbView,
    post: DbView,
    user_id: i64,
    token: String,
    at: Timestamp,
    later: Timestamp,
    r: Result<(UserSession, SessionCookie), DataError>,
)
    requires
        pre.wf(),
        pre.user_by_id(user_id) is Some,
        pre.session_by_token(token@) is None,
        pre.next_session_id < i64::MAX,
        session_start_done(pre, mid, user_id, token, at, r),
        at <= later <= at + SESSION_MAX_AGE,
        post == (DbView {
            sessions: mid.sessions.filter(crate::db::session_without_token(token@)),
            ..mid
        }),
    ensures
        r is Ok,
        session_user(mid, Some(token@), later) matches Some(u) && u.id == user_id,
        session_user(post, Some(token@), later) is None,
{
    broadcast use vstd::seq_lib::group_filter_ensures;

    let c = UserSession {
        id: pre.next_session_id,
        token,
        user_id,
        created_at: at,
        updated_at: at,
    };
    crate::db::sessions::lemma_sessions_push(pre, c);
    let k = pre.sessions.len() as int;
    assert(mid.sessions[k] == c);
    crate::rows::lemma_lookup_unique_at(
        mid.sessions,
        crate::db::session_with_token(token@),
        crate::db::session_tokens(),
        token@,
        k,
    );
    crate::rows::lemma_lookup_some(mid.users, crate::db::user_with_id(user_id));
    assert forall|i: int| 0 <= i < post.sessions.len() implies !crate::db::session_with_token(
        token@,
    )(#[trigger] post.sessions[i]) by {
        crate::rows::lemma_filter_member(
            mid.sessions,
            crate::db::session_without_token(token@),
            i,
        );
    }
    crate::rows::lemma_lookup_none(post.sessions, crate::db::session_with_token(token@));
}

/// A session created more than seven days before `at` (eight days, say) does
/// not resolve at `at`, and purging the expired sessions at `at` removes it.
pub proof fn lemma_expired_session(pre: DbView, post: DbView, k: int, at: Timestamp)
    requires
        pre.wf(),
        0 <= k < pre.sessions.len(),
        is_expired(pre.sessions[k].created_at, at),
        post == (DbView {
            sessions: pre.sessions.filter(crate::db::sessions::session_current(at)),
            ..pre
        }),
    ensures
        pre.live_session(pre.sessions[k].token@, at) is None,
        session_user(pre, Some(pre.sessions[k].token@), at) is None,
        post.session_by_token(pre.sessions[k].token@) is None,
{
    let t = pre.sessions[k].token@;
    crate::rows::lemma_lookup_unique_at(
        pre.sessions,
        crate::db::session_with_token(t),
        crate::db::session_tokens(),
        t,
        k,
    );
    assert forall|i: int| 0 <= i < post.sessions.len() implies !crate::db::session_with_token(t)(
        #[trigger] post.sessions[i],
    ) by {
        crate::rows::lemma_filter_member(pre.sessions, crate::db::sessions::session_current(at), i);
        let m = choose|m: int| 0 <= m < pre.sessions.len() && pre.sessions[m] == post.sessions[i];
        if post.sessions[i].token@ == t {
            assert(m == k);
        }
    }
    crate::rows::lemma_lookup_none(post.sessions, crate::db::session_with_token(t));
}

/// After a registration that succeeded, the stored user with the registered
/// username has a hash that accepts the registered password.
pub proof fn lemma_registered_password_accepted(
    pre: DbView,
    post: DbView,
    u: NewUser,
    r: Result<User, DataError>,
)
    requires
        pre.wf(),
        register_done(pre, post, u, r),
        r is Ok,
    ensures
        post.user_by_username(u.username@) matches Some(s) && bcrypt_verdict(
            u.password@,
            s.password_hash@,
        ) == Some(true),
{
    let (stored, at) = choose|stored: User, at: Timestamp|
        {
            &&& prepared(u, Ok(stored))
            &&& #[trigger] user_insert_done(pre, post, stored, at, r)
        };
    let c = crate::db::users::stored_user(stored, pre.next_user_id, at);
    crate::db::users::lemma_users_push(pre, c);
    let k = pre.users.len() as int;
    assert(post.users[k] == c);
    crate::rows::lemma_lookup_unique_at(
        post.users,
        crate::db::user_with_username(u.username@),
        crate::db::usernames(),
        u.username@,
        k,
    );
}

/// Logging in with an unknown username and logging in with a known username
/// and a wrong password are refused alike.
pub proof fn lemma_login_failures_alike(db: DbView, username: Seq<char>, password: Seq<char>)
    ensures
        db.user_by_username(username) is None ==> login_refused(db, username, password),
        (db.user_by_username(username) matches Some(u) && bcrypt_verdict(
            password,
            u.password_hash@,
        ) == Some(false)) ==> login_refused(db, username, password),
{
}

} // verus!
