//! Verified core of a company website back end: who may do what, how a
//! bearer token is read, how passwords and sessions are checked, and what
//! each endpoint answers for every outcome of its storage work.

pub mod access;
pub mod config;
pub mod crypto;
pub mod handlers;
pub mod ids;
pub mod json;
pub mod middleware;
pub mod models;
pub mod replies;
pub mod text;
