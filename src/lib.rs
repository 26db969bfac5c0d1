//! A reader for the public posts of a federated identity: an `id@domain`
//! handle is resolved through WebFinger and ActivityPub documents down to
//! the first page of its outbox, whose posts are rendered as wrapped text.
pub mod content;
pub mod document;
pub mod error;
pub mod handle;
pub mod pipeline;
pub mod present;
