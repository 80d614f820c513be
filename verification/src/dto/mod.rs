//! Data transfer objects exchanged with the handlers and repositories.

pub mod request;
pub mod response;
pub mod service;
pub mod repo;
