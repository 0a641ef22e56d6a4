//! Password hashing and token handling.

pub mod jwt;
pub mod password;
