//! Chat lifecycle rules of a multi-tenant chat server: validation of member
//! lists, derivation of a chat's category, and the decisions of create and
//! update, which the server runs around its store.
pub mod chat;
pub mod error;
pub mod laws;
pub mod models;
pub mod request_id;

pub use chat::{Chat, ChatType, CreateChat, NewChat, UpdateChat};
pub use error::{ChatError, ValidationFailure};
pub use models::{AuthOutput, ChatFile};
