//! The user resource: its records, its repository and its services.

pub mod entity;
pub mod repo;
pub mod services;
pub mod table;

pub use entity::{TokenPayload, User, UserUpdate};
