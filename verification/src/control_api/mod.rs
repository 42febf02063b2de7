//! The operators' interface: who may do what, and what is recorded of it.

pub mod access_laws;
pub mod audit;
pub mod auth;
pub mod certificate;
pub mod context;
pub mod dispatch;
pub mod identity;
pub mod laws;
pub mod record_laws;
pub mod reload;
pub mod render;
pub mod route;
pub mod security;
