//! A small user-management core: user records with a forced-role creation
//! policy, soft deletion, a uniform error adapter, and byte-preserving
//! body buffering, each with a verified contract.

pub mod errors;
pub mod handlers;
pub mod middleware;
pub mod store;
pub mod user;
