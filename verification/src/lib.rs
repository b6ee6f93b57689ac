//! A notification center: what it stores, how it seals and reads it back, which
//! rules apply, and what the daemon, the command line and the pop-ups decide.

pub mod text;
pub mod crypto;
pub mod encryption;
pub mod json;
pub mod time;
pub mod notification;
pub mod store;
pub mod queries;
pub mod config;
pub mod pattern;
pub mod rules;
pub mod popup;
pub mod daemon;
pub mod schema;
pub mod settings;
pub mod keys;
pub mod cli;
pub mod report;
pub mod output;
pub mod laws;
