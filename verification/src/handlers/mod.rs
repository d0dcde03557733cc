//! The requests of the authentication routes as conversations with the
//! outside world: what to ask for next, and what to make of the answer.

pub mod auth_handler;
pub mod conversation;
pub mod play;
pub mod reuse;
pub mod verification_mail;
