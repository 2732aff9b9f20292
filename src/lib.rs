//! A wishlist service core: lists of items, user accounts and cookie-backed
//! sessions, held in a validated repository whose operations are verified.
//!
//! - Lists are addressed from outside by their key alone: only public lists
//!   are enumerated, and a private list is reached by presenting its exact
//!   key. List ids serve inside the store: an item names its list by id.
//! - Every write validates first and reports all violated rules together;
//!   uniqueness and references are the store's to enforce, and their failures
//!   are storage errors.
//! - Deleting a list deletes its items; deleting a user deletes its sessions.
//! - A session older than seven days resolves to no one, purged or not.

pub mod api;
pub mod auth;
pub mod db;
pub mod models;
pub mod rows;
pub mod util;
pub mod validation;
pub mod web;

pub use api::{ApiError, ApiGenericError, CreateList, EditList};
pub use auth::{AuthError, LoggedInUser, NewUser, SameSite, SessionCookie, UserLogin};
pub use db::{DataError, StorageError, WishlistDb};
pub use models::{Image, Item, List, User, UserSession};
pub use validation::{FieldError, ValidationError, ValidationErrors};
pub use web::{CreateItem, EditItem, WebError};

