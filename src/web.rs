//! What the HTML pages share: form bodies, the error classes of a page, and
//! where a visitor without a session is sent.
use vstd::prelude::*;
use vstd::string::StringExecFns;

use crate::db::{DataError, StorageError};

verus! {

/// Where a visitor who must log in is sent.
pub const LOGIN_PATH: &'static str = "/login";

/// The body of the form that adds an item.
#[derive(Debug, Clone)]
pub struct CreateItem {
    pub title: String,
    pub description: String,
}

/// The body of the form that edits an item.
#[derive(Debug, Clone)]
pub struct EditItem {
    pub title: String,
    pub description: String,
}

/// An error page, carrying what is shown.
#[derive(Debug, Clone)]
pub enum WebError<T> {
    /// 422: the form broke rules.
    Invalid(T),
    /// 404.
    NotFound(T),
    /// 500.
    Internal(T),
}

impl<T> WebError<T> {
    /// The HTTP status of the page.
    pub fn status(&self) -> (r: u16)
        ensures
            r == match self {
                WebError::Invalid(_) => 422u16,
                WebError::NotFound(_) => 404u16,
                WebError::Internal(_) => 500u16,
            },
    {
        match self {
            WebError::Invalid(_) => 422,
            WebError::NotFound(_) => 404,
            WebError::Internal(_) => 500,
        }
    }

    /// The same class of page, showing `body`.
    pub fn with_body<U>(&self, body: U) -> (r: WebError<U>)
        ensures
            r == match self {
                WebError::Invalid(_) => WebError::Invalid(body),
                WebError::NotFound(_) => WebError::NotFound(body),
                WebError::Internal(_) => WebError::<U>::Internal(body),
            },
    {
        match self {
            WebError::Invalid(_) => WebError::Invalid(body),
            WebError::NotFound(_) => WebError::NotFound(body),
            WebError::Internal(_) => WebError::Internal(body),
        }
    }
}

/// The class of page for a failed write: 422 for broken rules, 404 for a row
/// that is not there, 500 for anything else.
pub open spec fn page_class(e: &DataError) -> WebError<()> {
    match e {
        DataError::Validation(_) => WebError::Invalid(()),
        DataError::Storage(StorageError::RowNotFound) => WebError::NotFound(()),
        _ => WebError::Internal(()),
    }
}

/// Classifies a failed write.
pub fn classify(e: &DataError) -> (r: WebError<()>)
    ensures
        r == page_class(e),
{
    match e {
        DataError::Validation(_) => WebError::Invalid(()),
        DataError::Storage(s) => {
            if *s == StorageError::RowNotFound {
                WebError::NotFound(())
            } else {
                WebError::Internal(())
            }
        },
        DataError::Other(_) => WebError::Internal(()),
    }
}

/// The account page, for a visitor without a session: the path of the login
/// page, where the visitor is sent.
pub fn show_2() -> (r: String)
    ensures
        r@ == LOGIN_PATH@,
{
    String::from_str(LOGIN_PATH)
}

} // verus!
