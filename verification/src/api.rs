//! Request and reply types, session tokens, and the operations of the
//! service.
pub mod dtos;
pub mod handlers;
pub mod utils;
