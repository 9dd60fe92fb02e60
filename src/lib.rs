//! Authentication and authorization core of the gaia identity backend:
//! credential hashing, the permission model, token claims and the
//! request guard that turns a bearer credential into an identity.

pub mod error;
pub mod guard;
pub mod model;
pub mod password;
pub mod permission;
pub mod token;
