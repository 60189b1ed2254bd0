//! Dual-audience authentication and authorization core.
//!
//! The library mints and validates signed session tokens for two disjoint
//! audiences (patients and doctors), checks credentials against stored
//! password hashes, enforces role membership, and gates requests carried in
//! transport cookies. Persistence and HTTP transport are collaborators,
//! reached through the [crate::repository::UsersRepository] contract and through
//! plain values; the rules themselves live here.

pub mod admin;
pub mod api_response;
pub mod authentication;
pub mod clock;
pub mod codec;
pub mod config;
pub mod cookies;
pub mod entities;
pub mod errors;
pub mod hashing;
pub mod middleware;
pub mod repository;
pub mod roles;
pub mod token;
pub mod users;
