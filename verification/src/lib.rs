//! User records behind a paged repository, and the security service that
//! hashes passwords and issues signed tokens for them.

pub mod common;
pub mod store;
pub mod users;
