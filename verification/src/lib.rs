//! Admission control and control-plane decisions of an edge proxy.

pub mod admission;
pub mod bootstrap;
pub mod config;
pub mod control_api;
pub mod crypto;
pub mod headers;
pub mod json;
pub mod keyed;
pub mod listener;
pub mod number;
pub mod status;
pub mod text;
pub mod text_laws;
