//! Session tokens and the constants of their carriage.
pub mod auth;
pub mod constants;
