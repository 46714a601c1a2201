//! Services around the user resource.

pub mod security;
