//! The rules of an ONYX group server: who may do what, which database rows
//! change as a result, and what every client is told about it.

pub mod text;
pub mod error;
pub mod json;
pub mod media;
pub mod models;
pub mod outcome;
pub mod store;
pub mod query;
pub mod group;
pub mod handlers;
pub mod auth;
pub mod clock;
pub mod crypto;
pub mod db;
pub mod moderation;
pub mod permissions;
pub mod rate_limit;
pub mod cli;
pub mod instance_config;
pub mod pm;
pub mod server;
pub mod ws;
