//! An in-memory message board: rooms named by strings, each holding an
//! append-only log of text messages in arrival order.
//!
//! [`Chats`] is the store, with a contract for each operation over the model
//! in [`model`]; [`laws`] holds what follows for every board; [`templates`]
//! holds the values that pages are drawn from.

pub mod laws;
pub mod model;
pub mod store;
pub mod templates;

pub use store::Chats;
pub use templates::{ChatTemplate, ChatsTemplate, IndexTemplate};
