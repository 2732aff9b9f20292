//! The list resource of the JSON API, addressed by list key: what each call
//! does to the store and which error class it answers with.
use vstd::prelude::*;
use vstd::string::StringExecFns;

use crate::db::lists::{list_delete_done, list_insert_done, list_update_done};
use crate::db::{DataError, StorageError, WishlistDb};
use crate::models::List;
use crate::util::is_token;
use crate::validation::ValidationErrors;

verus! {

pub const LIST_NOT_FOUND_MESSAGE: &'static str = "List not found";

/// The body of a 404 or 500 answer.
#[derive(Debug, Clone)]
pub struct ApiGenericError {
    pub message: String,
}

/// An error answer of the API.
#[derive(Debug, Clone)]
pub enum ApiError {
    /// 422: the fields broke rules; every violated rule is listed.
    Invalid(ValidationErrors),
    /// 404.
    NotFound(ApiGenericError),
    /// 500.
    Internal(ApiGenericError),
}

/// The body of a create call.
#[derive(Debug, Clone)]
pub struct CreateList {
    pub is_private: bool,
    pub title: String,
    pub description: String,
}

/// The body of an update call.
#[derive(Debug, Clone)]
pub struct EditList {
    pub is_private: bool,
    pub title: String,
    pub description: String,
}

/// The text of a storage error.
pub open spec fn storage_message(e: StorageError) -> Seq<char> {
    match e {
        StorageError::RowNotFound => "no rows returned by a query that expected to return at least one row"@,
        StorageError::DuplicateKey => "a list with this key already exists"@,
        StorageError::DuplicateUsername => "this username is already taken"@,
        StorageError::DuplicateToken => "a session with this token already exists"@,
        StorageError::MissingList => "the list does not exist"@,
        StorageError::MissingUser => "the user does not exist"@,
        StorageError::IdsExhausted => "no id is left to assign"@,
        StorageError::IdOutOfOrder => "a restored row must come after the rows already stored"@,
    }
}

impl StorageError {
    /// The text of the error.
    pub fn message(&self) -> (r: String)
        ensures
            r@ == storage_message(*self),
    {
        let m = match self {
            StorageError::RowNotFound => "no rows returned by a query that expected to return at least one row",
            StorageError::DuplicateKey => "a list with this key already exists",
            StorageError::DuplicateUsername => "this username is already taken",
            StorageError::DuplicateToken => "a session with this token already exists",
            StorageError::MissingList => "the list does not exist",
            StorageError::MissingUser => "the user does not exist",
            StorageError::IdsExhausted => "no id is left to assign",
            StorageError::IdOutOfOrder => "a restored row must come after the rows already stored",
        };
        String::from_str(m)
    }
}

/// The class of answer for a failed write: 422 for broken rules, 404 for a
/// row that is not there, 500 for anything else.
pub open spec fn api_error_for(e: DataError, a: ApiError) -> bool {
    match e {
        DataError::Validation(v) => a matches ApiError::Invalid(w) && w@ == v@,
        DataError::Storage(StorageError::RowNotFound) => a is NotFound,
        _ => a is Internal,
    }
}

impl ApiError {
    /// Classifies a failed write.
    pub fn from_data_error(e: DataError) -> (r: ApiError)
        ensures
            api_error_for(e, r),
    {
        match e {
            DataError::Validation(v) => ApiError::Invalid(v),
            DataError::Storage(s) => {
                let message = s.message();
                if s == StorageError::RowNotFound {
                    ApiError::NotFound(ApiGenericError { message })
                } else {
                    ApiError::Internal(ApiGenericError { message })
                }
            },
            DataError::Other(m) => ApiError::Internal(ApiGenericError { message: m }),
        }
    }

    /// The HTTP status of the answer.
    pub fn status(&self) -> (r: u16)
        ensures
            r == match self {
                ApiError::Invalid(_) => 422u16,
                ApiError::NotFound(_) => 404u16,
                ApiError::Internal(_) => 500u16,
            },
    {
        match self {
            ApiError::Invalid(_) => 422,
            ApiError::NotFound(_) => 404,
            ApiError::Internal(_) => 500,
        }
    }

    fn list_not_found() -> (r: ApiError)
        ensures
            r matches ApiError::NotFound(g) && g.message@ == LIST_NOT_FOUND_MESSAGE@,
    {
        ApiError::NotFound(ApiGenericError { message: String::from_str(LIST_NOT_FOUND_MESSAGE) })
    }
}

/// `GET /api/v1/lists`: the public lists.
pub fn index(db: &WishlistDb) -> (r: Vec<List>)
    ensures
        r@ == db@.public_lists(),
{
    List::all_public(db)
}

/// `GET /api/v1/lists/{key}`: the list with that key, public or private.
pub fn show(db: &WishlistDb, key: &str) -> (r: Option<List>)
    requires
        db@.wf(),
    ensures
        r == db@.list_by_key(key@),
{
    List::find_by_key(db, key)
}

/// `POST /api/v1/lists`: creates a list under a fresh random key.
pub fn create(db: &mut WishlistDb, list: &CreateList) -> (r: Result<List, ApiError>)
    requires
        old(db)@.wf(),
    ensures
        final(db)@.wf(),
        exists|l: List, w: Result<List, DataError>|
            {
                &&& l.id == 0
                &&& is_token(l.key@)
                &&& l.is_private == list.is_private
                &&& l.title@ == list.title@
                &&& l.description@ == list.description@
                &&& #[trigger] list_insert_done(old(db)@, final(db)@, l, w)
                &&& match w {
                    Ok(c) => r == Ok::<List, ApiError>(c),
                    Err(e) => r matches Err(a) && api_error_for(e, a),
                }
            },
{
    match List::create(db, list.is_private, list.title.as_str(), list.description.as_str()) {
        Ok(c) => Ok(c),
        Err(e) => Err(ApiError::from_data_error(e)),
    }
}

/// `PUT /api/v1/lists/{key}`: replaces the privacy flag, title and
/// description of the list with that key; 404 when there is none.
pub fn update(db: &mut WishlistDb, key: &str, list: &EditList) -> (r: Result<List, ApiError>)
    requires
        old(db)@.wf(),
    ensures
        final(db)@.wf(),
        match old(db)@.list_by_key(key@) {
            None => final(db)@ == old(db)@ && (r matches Err(ApiError::NotFound(g)) && g.message@
                == LIST_NOT_FOUND_MESSAGE@),
            Some(o) => exists|l: List, w: Result<List, DataError>|
                {
                    &&& l.id == o.id
                    &&& l.key == o.key
                    &&& l.is_private == list.is_private
                    &&& l.title@ == list.title@
                    &&& l.description@ == list.description@
                    &&& #[trigger] list_update_done(old(db)@, final(db)@, l, w)
                    &&& match w {
                        Ok(c) => r == Ok::<List, ApiError>(c),
                        Err(e) => r matches Err(a) && api_error_for(e, a),
                    }
                },
        },
{
    let mut old_list = match List::find_by_key(db, key) {
        Some(l) => l,
        None => {
            return Err(ApiError::list_not_found());
        },
    };
    proof {
        crate::db::lists::lemma_list_by_key_stored(db@, key@);
    }
    match old_list.update(db, list.is_private, list.title.as_str(), list.description.as_str()) {
        Ok(c) => Ok(c),
        Err(e) => Err(ApiError::from_data_error(e)),
    }
}

/// `DELETE /api/v1/lists/{key}`: deletes the list with that key and its
/// items; 404 when there is none.
pub fn destroy(db: &mut WishlistDb, key: &str) -> (r: Result<(), ApiError>)
    requires
        old(db)@.wf(),
    ensures
        final(db)@.wf(),
        match old(db)@.list_by_key(key@) {
            None => final(db)@ == old(db)@ && (r matches Err(ApiError::NotFound(g)) && g.message@
                == LIST_NOT_FOUND_MESSAGE@),
            Some(o) => r is Ok && list_delete_done(old(db)@, final(db)@, o.id),
        },
{
    let mut list = match List::find_by_key(db, key) {
        Some(l) => l,
        None => {
            return Err(ApiError::list_not_found());
        },
    };
    proof {
        crate::db::lists::lemma_list_by_key_stored(db@, key@);
    }
    match list.destroy(db) {
        Ok(()) => Ok(()),
        Err(e) => Err(ApiError::from_data_error(e)),
    }
}

} // verus!
