//! The rows and requests that the server works on.

pub mod ban;
pub mod member;
pub mod message;
pub mod permission;
pub mod session;
