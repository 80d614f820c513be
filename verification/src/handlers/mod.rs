//! Transport-agnostic handlers: the decisions they take on requests and on
//! the results of the services they call.

pub mod error;
pub mod mail;
pub mod flow;
pub mod authentication;
pub mod authorization;
pub mod session;
pub mod email_verification_session;
pub mod application_access;
pub mod application_management;
