//! In-memory repositories: the tables, and the operations on them.

pub mod token;
pub mod rate_limits;
pub mod email_limiting;
pub mod error;
pub mod account;
pub mod application;
pub mod authorization_code;
