//! The persisted records, as plain values.

pub mod email_verif_token;
pub mod refresh_token;
pub mod user;
