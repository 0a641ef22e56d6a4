//! Core domain of a multi-tenant ERP back end: validated value objects,
//! entities with role-based access control, password hashing and token
//! handling, and the application use cases written as step machines.

pub mod errors;
pub mod text;
pub mod value_objects;
pub mod ids;
pub mod entities;
pub mod auth;
pub mod use_cases;
pub mod api;
pub mod db;
