//! The eCryptfs driver: stacked encryption over a directory.

pub mod auth_tok;
pub mod collect;
pub mod defaults;
pub mod error;
pub mod key;
pub mod keyring;
pub mod laws;
pub mod mount;
pub mod params;
pub mod secret;
