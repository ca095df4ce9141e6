//! A per-key execution engine for a small set of atomic read-modify-write
//! commands over string and hash values with expirations.

pub mod command;
pub mod decimal;
pub mod engine;
pub mod laws;
pub mod model;
pub mod slot;
