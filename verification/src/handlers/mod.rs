//! What each request leads to.
//!
//! A handler gets the request as plain values, and what the database holds as
//! [`Lookup`](crate::error::Lookup)s that were made beforehand. It gives back
//! the changes to make, the notices to send and the reply, or a refusal.

pub mod auth_handlers;
pub mod avatars;
pub mod checks;
pub mod comments;
pub mod donations;
pub mod group_settings;
pub mod groups;
pub mod media;
pub mod members;
pub mod messages;
pub mod moderation_handlers;
pub mod polls;
pub mod roles;
