//! The messages of the live connection.

pub mod protocol;
