//! Which requests an upstream admits.

pub mod credential_laws;
pub mod jwks_cache;
pub mod jwks_laws;
pub mod jwks_refresh;
pub mod jwks_report;
pub mod jwks_source;
pub mod jwt;
pub mod jwt_claims;
pub mod jwt_validation;
pub mod key_laws;
pub mod key_resolution;
pub mod key_resolver;
pub mod laws;
pub mod policy;
pub mod post_auth;
pub mod quota;
pub mod refresh_outcome;
pub mod refusal_laws;
pub mod source_laws;
pub mod startup;
