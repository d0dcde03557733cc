//! The collaborators of the token lifecycle: the stores of record and the
//! service that signs, decodes and hashes.

pub mod auth_service;
pub mod email_service;
pub mod email_verif_token_service;
pub mod jwt;
pub mod password;
pub mod refresh_token_service;
pub mod shelf;
pub mod user_service;
