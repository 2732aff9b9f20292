//! The stored entities and their field rules.
pub mod image;
pub mod item;
pub mod list;
pub mod user;
pub mod user_session;

pub use image::Image;
pub use item::Item;
pub use list::List;
pub use user::User;
pub use user_session::UserSession;
