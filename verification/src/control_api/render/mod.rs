//! What operators are shown.

pub mod backends;
pub mod laws;
pub mod observability;
pub mod providers;
pub mod quota;
pub mod redaction;
pub mod runtime;
pub mod secrets;
