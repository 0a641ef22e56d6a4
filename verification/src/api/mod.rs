//! The HTTP surface's own logic: error statuses, bearer authentication,
//! request and response bodies, and the workspace graph.

pub mod auth;
pub mod errors;
pub mod graph;
pub mod requests;
