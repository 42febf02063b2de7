//! Requests that arrive over the bootstrap listener.

pub mod outcome;
