//! Verified core of the metw accounts center: identifiers, request
//! validation, the in-memory repositories and the decisions that the
//! transport-agnostic handlers take.

mod clock;
pub mod ids;
pub mod keyed;
pub mod decimal;
pub mod net;
pub mod validation;
pub mod dto;
pub mod entity;
pub mod token;
pub mod repo;
pub mod handlers;
pub mod client;
pub mod credentials;
pub mod signin;

