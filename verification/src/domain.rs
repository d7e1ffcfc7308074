//! The domain: value types, the user entity, store interfaces and errors.
pub mod error;
pub mod models;
pub mod ports;
