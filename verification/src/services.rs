//! In-memory stores. They keep nothing across restarts and never fail
//! unexpectedly.
pub mod banned_user_store;
pub mod hashmap_two_fa_code_store;
pub mod hashmap_user_store;
