//! Authentication service core.
//!
//! The crate holds the rules of an authentication service: validated value
//! types, the stores of users, pending second-factor codes and revoked
//! tokens, the issuing and checking of session tokens, and the operations
//! that tie them together (sign-up, login, second-factor verification, token
//! verification and logout). Every operation is an ordinary function from the
//! request and the stores to a reply; transport, locking and the clock belong
//! to the caller.
pub mod api;
pub mod domain;
pub mod services;
