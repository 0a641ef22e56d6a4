//! The application's use cases. Each runs as a step machine: it starts
//! from its input, asks its caller to perform an outside action (a lookup,
//! a hash, a write), and resumes with the event that the action produced,
//! until it finishes with its result.

pub mod assign_role;
pub mod authenticate_user;
pub mod create_tenant;
pub mod refresh_token;
pub mod register_user;
