//! Entities of the domain: tenants, users, roles and permissions.

pub mod permission;
pub mod role;
pub mod tenant;
pub mod user;
