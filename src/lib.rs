//! A URL-shortening service core: request validation, the expiration
//! window, the mapping between requests, stored records and responses, and
//! the decisions of the create, fetch and redirect operations.
//!
//! Storage and HTTP transport live outside this crate; the operations here
//! take what the store answered and say what to send back.

pub mod time;
pub mod slug;
pub mod model;
pub mod validation;
pub mod error;
pub mod handlers;
pub mod laws;
