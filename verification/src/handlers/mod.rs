//! The endpoints' decisions, one module per group of endpoints.

pub mod auth;
pub mod board_members;
pub mod content;
pub mod employees;
pub mod gallery;
pub mod hero;
pub mod products;
pub mod stats;
pub mod upload;
